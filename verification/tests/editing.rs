use text_editor::keys::{Command, Key, KeyPress};
use text_editor::text_editor::{Action, Direction, TextEditor};

fn chars(s: &str) -> Vec<char> {
    s.chars().collect()
}

fn editor(lines: &[&str], row: usize, col: usize) -> TextEditor {
    TextEditor {
        alive: true,
        path: String::from("notes.txt"),
        saved: true,
        lines: lines.iter().map(|l| chars(l)).collect(),
        cursor_row: row,
        cursor_col: col,
        cursor_col_offset: 2,
    }
}

fn text(e: &TextEditor) -> Vec<String> {
    e.lines.iter().map(|l| l.iter().collect()).collect()
}

fn bare(key: Key) -> KeyPress {
    KeyPress { key, control: false }
}

fn ctrl(c: char) -> KeyPress {
    KeyPress { key: Key::Char(c), control: true }
}

fn valid(e: &TextEditor) -> bool {
    !e.lines.is_empty() && e.cursor_row < e.lines.len() && e.cursor_col <= e.lines[e.cursor_row].len()
}

#[test]
fn typing_enter_backspace_on_empty_buffer() {
    let mut e = editor(&[""], 0, 0);
    e.handle_key(bare(Key::Char('h')));
    e.handle_key(bare(Key::Char('i')));
    assert_eq!(text(&e), vec!["hi"]);
    assert_eq!((e.cursor_row, e.cursor_col), (0, 2));
    e.handle_key(bare(Key::Enter));
    assert_eq!(text(&e), vec!["hi", ""]);
    assert_eq!((e.cursor_row, e.cursor_col), (1, 0));
    e.handle_key(bare(Key::Backspace));
    assert_eq!(text(&e), vec!["hi"]);
    assert_eq!((e.cursor_row, e.cursor_col), (0, 2));
}

#[test]
fn backspace_at_line_start_merges_lines() {
    let mut e = editor(&["ab", "cd"], 1, 0);
    e.erase_char();
    assert_eq!(text(&e), vec!["abcd"]);
    assert_eq!((e.cursor_row, e.cursor_col), (0, 2));
    assert!(!e.saved);
}

#[test]
fn split_then_merge_restores_line() {
    let mut e = editor(&["top", "abcdef", "end"], 1, 3);
    e.insert_new_line();
    assert_eq!(text(&e), vec!["top", "abc", "def", "end"]);
    assert_eq!((e.cursor_row, e.cursor_col), (2, 0));
    e.erase_char();
    assert_eq!(text(&e), vec!["top", "abcdef", "end"]);
    assert_eq!((e.cursor_row, e.cursor_col), (1, 3));
}

#[test]
fn newline_at_line_start_pushes_line_down() {
    let mut e = editor(&["ab", "cd"], 1, 0);
    e.insert_new_line();
    assert_eq!(text(&e), vec!["ab", "", "cd"]);
    assert_eq!((e.cursor_row, e.cursor_col), (2, 0));
    assert!(!e.saved);
}

#[test]
fn newline_at_line_end_opens_line_below() {
    let mut e = editor(&["ab", "cd"], 0, 2);
    e.insert_new_line();
    assert_eq!(text(&e), vec!["ab", "", "cd"]);
    assert_eq!((e.cursor_row, e.cursor_col), (1, 0));
}

#[test]
fn insert_char_in_the_middle() {
    let mut e = editor(&["ac"], 0, 1);
    e.insert_char('b');
    assert_eq!(text(&e), vec!["abc"]);
    assert_eq!((e.cursor_row, e.cursor_col), (0, 2));
    assert!(!e.saved);
}

#[test]
fn insert_char_counts_characters_not_bytes() {
    let mut e = editor(&["h\u{e9}llo"], 0, 2);
    e.insert_char('x');
    assert_eq!(text(&e), vec!["h\u{e9}xllo"]);
    assert_eq!(e.cursor_col, 3);
    e.erase_char();
    e.erase_char();
    assert_eq!(text(&e), vec!["hllo"]);
    assert_eq!(e.cursor_col, 1);
}

#[test]
fn backspace_in_line_removes_previous_char() {
    let mut e = editor(&["abc"], 0, 2);
    e.erase_char();
    assert_eq!(text(&e), vec!["ac"]);
    assert_eq!((e.cursor_row, e.cursor_col), (0, 1));
    assert!(!e.saved);
}

#[test]
fn backspace_at_origin_changes_nothing() {
    let mut e = editor(&["ab", "cd"], 0, 0);
    for _ in 0..3 {
        e.erase_char();
        assert_eq!(text(&e), vec!["ab", "cd"]);
        assert_eq!((e.cursor_row, e.cursor_col), (0, 0));
        assert!(e.saved);
        assert!(e.alive);
    }
}

#[test]
fn move_up_at_top_changes_nothing() {
    let mut e = editor(&["ab", "cd"], 0, 1);
    for _ in 0..3 {
        e.move_cursor(Direction::Up);
        assert_eq!((e.cursor_row, e.cursor_col), (0, 1));
        assert_eq!(text(&e), vec!["ab", "cd"]);
        assert!(e.saved);
    }
}

#[test]
fn move_left_at_line_start_changes_nothing() {
    let mut e = editor(&["ab", "cd"], 1, 0);
    for _ in 0..3 {
        e.move_cursor(Direction::Left);
        assert_eq!((e.cursor_row, e.cursor_col), (1, 0));
        assert!(e.saved);
    }
}

#[test]
fn move_right_stops_at_line_end() {
    let mut e = editor(&["ab", "cd"], 0, 1);
    e.move_cursor(Direction::Right);
    assert_eq!((e.cursor_row, e.cursor_col), (0, 2));
    e.move_cursor(Direction::Right);
    assert_eq!((e.cursor_row, e.cursor_col), (0, 2));
}

#[test]
fn move_down_stops_at_last_line_and_clamps_column() {
    let mut e = editor(&["abcdef", "cd"], 0, 5);
    e.move_cursor(Direction::Down);
    assert_eq!((e.cursor_row, e.cursor_col), (1, 2));
    e.move_cursor(Direction::Down);
    assert_eq!((e.cursor_row, e.cursor_col), (1, 2));
    e.move_cursor(Direction::Up);
    assert_eq!((e.cursor_row, e.cursor_col), (0, 2));
    e.move_cursor(Direction::Left);
    assert_eq!((e.cursor_row, e.cursor_col), (0, 1));
}

#[test]
fn home_and_end() {
    let mut e = editor(&["abcdef"], 0, 3);
    e.move_cursor(Direction::Back);
    assert_eq!(e.cursor_col, 6);
    e.move_cursor(Direction::Front);
    assert_eq!(e.cursor_col, 0);
    assert!(e.saved);
}

#[test]
fn is_valid_tells_cursor_inside_text() {
    assert!(editor(&["abc", "de"], 1, 2).is_valid());
    assert!(editor(&["abc", "de"], 0, 0).is_valid());
    assert!(!editor(&["abc", "de"], 1, 3).is_valid());
    assert!(!editor(&["abc", "de"], 2, 0).is_valid());
    assert!(!editor(&[], 0, 0).is_valid());
}

#[test]
fn clamp_pulls_cursor_into_text() {
    let mut e = editor(&["abc", "de"], 7, 9);
    e.clamp();
    assert_eq!((e.cursor_row, e.cursor_col), (1, 2));
    let mut e = editor(&["abc", "de"], 0, 9);
    e.clamp();
    assert_eq!((e.cursor_row, e.cursor_col), (0, 3));
    let mut e = editor(&["abc", "de"], 1, 1);
    e.clamp();
    assert_eq!((e.cursor_row, e.cursor_col), (1, 1));
}

#[test]
fn clear_line_empties_line_and_marks_unsaved() {
    let mut e = editor(&["ab", "cd", "ef"], 1, 2);
    e.clear_line();
    assert_eq!(text(&e), vec!["ab", "", "ef"]);
    assert_eq!((e.cursor_row, e.cursor_col), (1, 0));
    assert!(!e.saved);
}

#[test]
fn cursor_stays_valid_through_a_long_session() {
    let mut e = editor(&[""], 0, 0);
    let commands = [
        Command::InsertChar('a'),
        Command::InsertChar('b'),
        Command::InsertNewline,
        Command::Move(Direction::Down),
        Command::Move(Direction::Right),
        Command::InsertChar('c'),
        Command::Move(Direction::Up),
        Command::Move(Direction::Back),
        Command::Move(Direction::Right),
        Command::InsertNewline,
        Command::Backspace,
        Command::Backspace,
        Command::Backspace,
        Command::Move(Direction::Left),
        Command::Move(Direction::Front),
        Command::Backspace,
        Command::ClearLine,
        Command::Move(Direction::Down),
        Command::Backspace,
        Command::Backspace,
        Command::Backspace,
    ];
    for command in commands {
        e.apply(command);
        assert!(valid(&e));
    }
    assert_eq!(text(&e), vec!["c"]);
    assert_eq!((e.cursor_row, e.cursor_col), (0, 0));
}

#[test]
fn save_then_edit_then_quit() {
    let mut e = editor(&["ab"], 0, 2);
    e.saved = false;
    assert_eq!(e.handle_key(ctrl('s')), Action::Save);
    assert!(!e.saved);
    e.mark_saved();
    assert!(e.saved);
    assert_eq!(e.handle_key(bare(Key::Char('c'))), Action::Nothing);
    assert!(!e.saved);
    e.handle_key(bare(Key::Esc));
    assert!(e.alive);
    e.handle_key(ctrl('q'));
    assert!(!e.alive);
}

#[test]
fn escape_quits_when_saved() {
    let mut e = editor(&["ab"], 0, 2);
    e.handle_key(bare(Key::Esc));
    assert!(!e.alive);
    assert_eq!(text(&e), vec!["ab"]);
}

#[test]
fn quit_and_force_quit() {
    let mut e = editor(&["ab"], 0, 2);
    e.saved = false;
    e.quit();
    assert!(e.alive);
    e.force_quit();
    assert!(!e.alive);
    let mut e = editor(&["ab"], 0, 2);
    e.quit();
    assert!(!e.alive);
}

#[test]
fn moving_does_not_mark_unsaved() {
    let mut e = editor(&["ab", "cd"], 0, 0);
    for key in [Key::Down, Key::Right, Key::End, Key::Up, Key::Left, Key::Home] {
        e.handle_key(bare(key));
        assert!(e.saved);
    }
}

#[test]
fn control_keys_move_and_clear() {
    let mut e = editor(&["abcdef"], 0, 3);
    e.handle_key(ctrl('e'));
    assert_eq!(e.cursor_col, 6);
    e.handle_key(ctrl('a'));
    assert_eq!(e.cursor_col, 0);
    e.handle_key(ctrl('u'));
    assert_eq!(text(&e), vec![""]);
    assert!(!e.saved);
}

#[test]
fn control_letter_without_meaning_is_typed() {
    let mut e = editor(&[""], 0, 0);
    e.handle_key(ctrl('x'));
    assert_eq!(text(&e), vec!["x"]);
}

#[test]
fn unknown_key_changes_only_the_gutter_offset() {
    let mut e = editor(&["ab"], 0, 1);
    e.cursor_col_offset = 9;
    assert_eq!(e.handle_key(bare(Key::Other)), Action::Nothing);
    assert_eq!(text(&e), vec!["ab"]);
    assert_eq!((e.cursor_row, e.cursor_col), (0, 1));
    assert!(e.saved && e.alive);
    assert_eq!(e.cursor_col_offset, 2);
}

#[test]
fn gutter_offset_follows_line_count() {
    let mut e = editor(&["1", "2", "3", "4", "5", "6", "7", "8", "9"], 8, 1);
    e.handle_key(bare(Key::Left));
    assert_eq!(e.cursor_col_offset, 2);
    e.handle_key(bare(Key::Enter));
    assert_eq!(e.lines.len(), 10);
    assert_eq!(e.cursor_col_offset, 3);
    assert_eq!(e.get_line_number_width(), 2);
}

#[test]
fn apply_reports_save_only_for_save() {
    let mut e = editor(&["ab"], 0, 0);
    assert_eq!(e.apply(Command::Save), Action::Save);
    assert!(e.saved);
    assert_eq!(text(&e), vec!["ab"]);
    assert_eq!(e.apply(Command::Move(Direction::Right)), Action::Nothing);
    assert_eq!(e.apply(Command::InsertNewline), Action::Nothing);
    assert_eq!(text(&e), vec!["a", "b"]);
}

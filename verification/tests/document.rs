use text_editor::document::split_lines;
use text_editor::text_editor::TextEditor;

fn chars(s: &str) -> Vec<char> {
    s.chars().collect()
}

fn split(s: &str) -> Vec<String> {
    split_lines(&chars(s)).iter().map(|l| l.iter().collect()).collect()
}

fn text(e: &TextEditor) -> Vec<String> {
    e.lines.iter().map(|l| l.iter().collect()).collect()
}

#[test]
fn split_empty_text_has_no_lines() {
    assert_eq!(split(""), Vec::<String>::new());
}

#[test]
fn split_drops_final_terminator() {
    assert_eq!(split("a\n"), vec!["a"]);
    assert_eq!(split("a\nb\n"), vec!["a", "b"]);
    assert_eq!(split("a\nb"), vec!["a", "b"]);
}

#[test]
fn split_keeps_empty_lines() {
    assert_eq!(split("\n"), vec![""]);
    assert_eq!(split("a\n\nb"), vec!["a", "", "b"]);
    assert_eq!(split("\n\n"), vec!["", ""]);
}

#[test]
fn split_takes_carriage_return_with_line_feed() {
    assert_eq!(split("a\r\nb\r\n"), vec!["a", "b"]);
    assert_eq!(split("a\rb\n"), vec!["a\rb"]);
    assert_eq!(split("a\r"), vec!["a\r"]);
    assert_eq!(split("\r\n"), vec![""]);
}

#[test]
fn split_agrees_with_std_lines() {
    for s in ["", "x", "x\n", "x\ny", "\n", "\n\nx\n", "a\r\nb", "a\r\n\r\nb\n", "a\rb", "tail\r"] {
        let expect: Vec<String> = s.lines().map(String::from).collect();
        assert_eq!(split(s), expect);
    }
}

#[test]
fn open_missing_file_gives_one_unsaved_empty_line() {
    let e = TextEditor::open_file(String::from("new.txt"), None);
    assert_eq!(text(&e), vec![""]);
    assert!(!e.saved);
    assert!(e.alive);
    assert_eq!(e.path, "new.txt");
    assert_eq!((e.cursor_row, e.cursor_col, e.cursor_col_offset), (0, 0, 2));
}

#[test]
fn open_existing_file_splits_lines() {
    let e = TextEditor::open_file(String::from("old.txt"), Some(chars("ab\ncd\n")));
    assert_eq!(text(&e), vec!["ab", "cd"]);
    assert!(e.saved);
    assert!(e.alive);
    assert_eq!(e.path, "old.txt");
    assert_eq!((e.cursor_row, e.cursor_col, e.cursor_col_offset), (0, 0, 2));
}

#[test]
fn open_empty_file_gives_one_saved_empty_line() {
    let e = TextEditor::open_file(String::from("empty.txt"), Some(Vec::new()));
    assert_eq!(text(&e), vec![""]);
    assert!(e.saved);
}

#[test]
fn contents_terminates_every_line() {
    let e = TextEditor::open_file(String::from("f"), Some(chars("ab\ncd")));
    assert_eq!(e.contents(), chars("ab\ncd\n"));
    let e = TextEditor::open_file(String::from("f"), None);
    assert_eq!(e.contents(), chars("\n"));
}

#[test]
fn save_then_open_gives_the_same_lines() {
    let mut e = TextEditor::open_file(String::from("f"), None);
    for c in "one".chars() {
        e.insert_char(c);
    }
    e.insert_new_line();
    e.insert_new_line();
    for c in "three".chars() {
        e.insert_char(c);
    }
    let written = e.contents();
    assert_eq!(written, chars("one\n\nthree\n"));
    e.mark_saved();
    let again = TextEditor::open_file(String::from("f"), Some(written));
    assert_eq!(again.lines, e.lines);
    assert!(again.saved);
}

//! What holds of the editor whatever is typed.

use vstd::prelude::*;
use crate::document::{is_plain_line, lemma_line_end, spec_join, spec_lines, spec_open, spec_strip_cr};
use crate::keys::{Command, KeyPress};
use crate::text_editor::{Direction, EditorState};

verus! {

/// The state after a sequence of commands, carried out in order.
pub open spec fn run(state: EditorState, commands: Seq<Command>) -> EditorState
    decreases commands.len(),
{
    if commands.len() == 0 {
        state
    } else {
        run(state, commands.drop_last()).apply(commands.last())
    }
}

/// The state after the same command `n` times.
pub open spec fn repeat(state: EditorState, command: Command, n: nat) -> EditorState
    decreases n,
{
    if n == 0 {
        state
    } else {
        repeat(state, command, (n - 1) as nat).apply(command)
    }
}

/// The commands that change the text of a given state: every edit but a
/// backspace at the very start of the text.
pub open spec fn changes_text(state: EditorState, command: Command) -> bool {
    match command {
        Command::ClearLine => true,
        Command::InsertChar(_) => true,
        Command::InsertNewline => true,
        Command::Backspace => state.row > 0 || state.col > 0,
        _ => false,
    }
}

/// Clamping a valid cursor changes nothing.
pub proof fn lemma_clamp_valid(state: EditorState)
    requires
        state.wf(),
    ensures
        state.clamp() == state,
{
}

/// Clamping gives a valid cursor wherever the cursor stood, as long as it did
/// not stand before the start, and there is a line.
pub proof fn lemma_clamp_restores(state: EditorState)
    requires
        state.lines.len() > 0,
        state.row >= 0,
        state.col >= 0,
    ensures
        state.clamp().wf(),
        state.clamp().lines == state.lines,
{
}

/// One command leaves the cursor inside the text.
pub proof fn lemma_apply_valid(state: EditorState, command: Command)
    requires
        state.wf(),
    ensures
        state.apply(command).wf(),
{
}

/// One key press leaves the cursor inside the text.
pub proof fn lemma_handle_key_valid(state: EditorState, press: KeyPress)
    requires
        state.wf(),
    ensures
        state.handle_key(press).wf(),
{
}

/// After each command of any sequence of commands the cursor is inside the
/// text: its row is a line that exists, its column on that line or just
/// after its end.
pub proof fn lemma_run_valid(state: EditorState, commands: Seq<Command>, upto: int)
    requires
        state.wf(),
        0 <= upto <= commands.len(),
    ensures
        run(state, commands.take(upto)).wf(),
    decreases upto,
{
    let prefix = commands.take(upto);
    if upto > 0 {
        lemma_run_valid(state, commands, upto - 1);
        assert(prefix.drop_last() =~= commands.take(upto - 1));
        lemma_apply_valid(run(state, prefix.drop_last()), prefix.last());
    }
}

/// A command that leaves a state as it is leaves it so however often it is
/// repeated.
pub proof fn lemma_repeat_fixed(state: EditorState, command: Command, n: nat)
    requires
        state.apply(command) == state,
    ensures
        repeat(state, command, n) == state,
    decreases n,
{
    if n > 0 {
        lemma_repeat_fixed(state, command, (n - 1) as nat);
    }
}

/// Moving up on the first line, however often, changes nothing.
pub proof fn lemma_move_up_at_top(state: EditorState, n: nat)
    requires
        state.wf(),
        state.row == 0,
    ensures
        state.move_cursor(Direction::Up) == state,
        repeat(state, Command::Move(Direction::Up), n) == state,
{
    lemma_repeat_fixed(state, Command::Move(Direction::Up), n);
}

/// Moving left in the first column, however often, changes nothing.
pub proof fn lemma_move_left_at_start(state: EditorState, n: nat)
    requires
        state.wf(),
        state.col == 0,
    ensures
        state.move_cursor(Direction::Left) == state,
        repeat(state, Command::Move(Direction::Left), n) == state,
{
    lemma_repeat_fixed(state, Command::Move(Direction::Left), n);
}

/// A backspace at the very start of the text, however often, changes
/// nothing, the saved flag included.
pub proof fn lemma_backspace_at_origin(state: EditorState, n: nat)
    requires
        state.wf(),
        state.row == 0,
        state.col == 0,
    ensures
        state.erase_char() == state,
        repeat(state, Command::Backspace, n) == state,
{
    lemma_repeat_fixed(state, Command::Backspace, n);
}

/// Moving right at the end of a line does not leave the line.
pub proof fn lemma_move_right_at_end(state: EditorState)
    requires
        state.wf(),
        state.col == state.line().len(),
    ensures
        state.move_cursor(Direction::Right) == state,
{
}

/// Splitting a line and deleting backwards at once gives back the text and
/// the cursor; only the saved flag is lost.
pub proof fn lemma_split_then_merge(state: EditorState)
    requires
        state.wf(),
    ensures
        state.insert_new_line().erase_char() == (EditorState { saved: false, ..state }),
        state.apply(Command::InsertNewline).apply(Command::Backspace) == (EditorState {
            saved: false,
            ..state
        }),
{
    let split = state.insert_new_line();
    let head = state.line().subrange(0, state.col);
    let tail = state.line().subrange(state.col, state.line().len() as int);
    assert(head + tail =~= state.line());
    assert(split.lines[state.row] == head);
    assert(split.lines[state.row + 1] == tail);
    assert(split.erase_char().lines =~= state.lines);
    assert(split.wf());
    assert(split.erase_char().wf());
}

/// Typing a character and deleting backwards at once gives back the text
/// and the cursor; only the saved flag is lost.
pub proof fn lemma_type_then_erase(state: EditorState, c: char)
    requires
        state.wf(),
    ensures
        state.insert_char(c).erase_char() == (EditorState { saved: false, ..state }),
{
    let typed = state.insert_char(c);
    assert(state.line().insert(state.col, c).remove(state.col) =~= state.line());
    assert(typed.erase_char().lines =~= state.lines);
}

/// Recording a save clears the unsaved mark; a command that changes the text
/// sets it again; every other command leaves it as it was.
pub proof fn lemma_saved_flag(state: EditorState, command: Command)
    requires
        state.wf(),
    ensures
        state.mark_saved().saved,
        changes_text(state.mark_saved(), command) ==> !state.mark_saved().apply(command).saved,
        changes_text(state, command) ==> !state.apply(command).saved,
        !changes_text(state, command) ==> state.apply(command).saved == state.saved
            && state.apply(command).lines == state.lines,
{
}

/// Quitting is refused while anything is unsaved, and honoured otherwise;
/// quitting by force is always honoured. Neither touches text or cursor.
pub proof fn lemma_quit(state: EditorState)
    requires
        state.wf(),
    ensures
        !state.saved ==> state.apply(Command::Quit) == state,
        state.saved ==> state.apply(Command::Quit) == (EditorState { alive: false, ..state }),
        state.apply(Command::ForceQuit) == (EditorState { alive: false, ..state }),
{
}

/// Typing a character and clearing a line stay on their line: the cursor's
/// row, the number of lines and every other line are as before.
pub proof fn lemma_edits_in_line(state: EditorState, command: Command)
    requires
        state.wf(),
        command == Command::ClearLine || (exists|c: char| command == Command::InsertChar(c)),
    ensures
        state.apply(command).row == state.row,
        state.apply(command).lines.len() == state.lines.len(),
        forall|i: int|
            0 <= i < state.lines.len() && i != state.row ==> state.apply(command).lines[i]
                == state.lines[i],
{
}

/// A new line at the start of a line puts an empty line before it; at the
/// end of a line, an empty line after it; in between, the line is cut in
/// two. The cursor goes to the start of the next row each time.
pub proof fn lemma_new_line_cases(state: EditorState)
    requires
        state.wf(),
    ensures
        state.col == 0 ==> state.insert_new_line().lines == state.lines.insert(
            state.row,
            Seq::<char>::empty(),
        ),
        state.col == state.line().len() ==> state.insert_new_line().lines == state.lines.insert(
            state.row + 1,
            Seq::<char>::empty(),
        ),
        state.insert_new_line().lines.len() == state.lines.len() + 1,
        state.insert_new_line().lines[state.row] + state.insert_new_line().lines[state.row + 1]
            == state.line(),
        state.insert_new_line().lines[state.row].len() == state.col,
        state.insert_new_line().row == state.row + 1,
        state.insert_new_line().col == 0,
{
    let after = state.insert_new_line();
    let line = state.line();
    assert(line.subrange(0, line.len() as int) =~= line);
    assert(line.subrange(0, 0) =~= Seq::<char>::empty());
    assert(line.subrange(line.len() as int, line.len() as int) =~= Seq::<char>::empty());
    if state.col == 0 {
        assert(after.lines =~= state.lines.insert(state.row, Seq::<char>::empty()));
    }
    if state.col == line.len() {
        assert(after.lines =~= state.lines.insert(state.row + 1, Seq::<char>::empty()));
    }
    assert(after.lines[state.row] + after.lines[state.row + 1] =~= line);
}

/// Joining a line to the one above keeps every character: the line above
/// grows by the line under the cursor, and the cursor stands where the two
/// meet.
pub proof fn lemma_merge(state: EditorState)
    requires
        state.wf(),
        state.col == 0,
        state.row > 0,
    ensures
        state.erase_char().lines.len() == state.lines.len() - 1,
        state.erase_char().lines[state.row - 1] == state.lines[state.row - 1] + state.line(),
        state.erase_char().row == state.row - 1,
        state.erase_char().col == state.lines[state.row - 1].len(),
        state.erase_char().wf(),
{
}

/// Lines that hold no line break of their own come back from their text as
/// they were.
pub proof fn lemma_lines_of_join(lines: Seq<Seq<char>>)
    requires
        forall|i: int| 0 <= i < lines.len() ==> is_plain_line(#[trigger] lines[i]),
    ensures
        spec_lines(spec_join(lines)) == lines,
    decreases lines.len(),
{
    if lines.len() > 0 {
        let first = lines[0];
        let rest = lines.skip(1);
        let text = spec_join(lines);
        assert(is_plain_line(first));
        assert forall|i: int| 0 <= i < rest.len() implies is_plain_line(#[trigger] rest[i]) by {
            assert(rest[i] == lines[i + 1]);
        }
        lemma_lines_of_join(rest);
        assert(text == first + seq!['\n'] + spec_join(rest));
        lemma_line_end(text, first.len() as int);
        assert(text.take(first.len() as int) =~= first);
        assert(spec_strip_cr(first) == first);
        assert(text.skip(first.len() as int + 1) =~= spec_join(rest));
        assert(seq![first] + rest =~= lines);
    } else {
        assert(spec_lines(spec_join(lines)) =~= lines);
    }
}

/// Opening what a valid editor writes gives its lines again, as saved, with
/// the cursor at the start, provided no line holds a line break of its own.
pub proof fn lemma_save_then_open(state: EditorState)
    requires
        state.wf(),
        forall|i: int| 0 <= i < state.lines.len() ==> is_plain_line(#[trigger] state.lines[i]),
    ensures
        spec_open(state.path, Some(spec_join(state.lines))).lines == state.lines,
        spec_open(state.path, Some(spec_join(state.lines))).saved,
        spec_open(state.path, Some(spec_join(state.lines))).wf(),
{
    lemma_lines_of_join(state.lines);
}

} // verus!

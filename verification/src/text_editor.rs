//! The editor: a non-empty sequence of lines, a cursor that always addresses a
//! valid position in it, and the commands that change both in one step.

use vstd::prelude::*;
use crate::keys::{decode, spec_decode, Command, KeyPress};
use crate::layout::{digits, spec_digits};

verus! {

/// The editor as it runs: text, cursor, and the flags of the session.
///
/// Columns count characters, so a line is held as its characters.
#[derive(Debug)]
pub struct TextEditor {
    /// False once the user has quit.
    pub alive: bool,
    /// Where the text is written on save.
    pub path: String,
    /// True while the text equals what was last written.
    pub saved: bool,
    /// The lines, top to bottom; never empty.
    pub lines: Vec<Vec<char>>,
    /// The cursor's line.
    pub cursor_row: usize,
    /// The cursor's column: how many characters of the line stand before it.
    pub cursor_col: usize,
    /// Screen columns taken by the line-number gutter and its separator.
    pub cursor_col_offset: u16,
}

/// A cursor movement: one step up, right, down or left, or a jump to the
/// front or the back of the line.
#[derive(Clone, Copy, Debug, PartialEq, Eq, Structural)]
pub enum Direction {
    Up,
    Right,
    Down,
    Left,
    Front,
    Back,
}

/// What the caller has to do after a command.
#[derive(Clone, Copy, Debug, PartialEq, Eq, Structural)]
pub enum Action {
    /// Nothing beyond redrawing.
    Nothing,
    /// Write `contents()` to `path`, then call `mark_saved()`.
    Save,
}

/// The mathematical value of an editor.
pub ghost struct EditorState {
    pub alive: bool,
    pub path: Seq<char>,
    pub saved: bool,
    pub lines: Seq<Seq<char>>,
    pub row: int,
    pub col: int,
    pub col_offset: int,
}

/// The characters of each line.
pub open spec fn lines_view(lines: Seq<Vec<char>>) -> Seq<Seq<char>> {
    Seq::new(lines.len(), |i: int| lines[i]@)
}

impl EditorState {
    /// The cursor addresses a line that exists, and a column on or just after it.
    pub open spec fn wf(self) -> bool {
        &&& self.lines.len() > 0
        &&& 0 <= self.row < self.lines.len()
        &&& 0 <= self.col <= self.lines[self.row].len()
    }

    /// The line under the cursor.
    pub open spec fn line(self) -> Seq<char> {
        self.lines[self.row]
    }

    /// Pulls the cursor back to the last line, then to the end of its line.
    pub open spec fn clamp(self) -> EditorState {
        let row = if self.row >= self.lines.len() {
            self.lines.len() - 1
        } else {
            self.row
        };
        let col = if self.col > self.lines[row].len() {
            self.lines[row].len() as int
        } else {
            self.col
        };
        EditorState { row, col, ..self }
    }

    /// One step in a direction, stopping at every edge of the text.
    pub open spec fn move_cursor(self, direction: Direction) -> EditorState {
        let stepped = match direction {
            Direction::Up => EditorState { row: if self.row > 0 { self.row - 1 } else { 0 }, ..self },
            Direction::Right => EditorState { col: self.col + 1, ..self },
            Direction::Down => EditorState { row: self.row + 1, ..self },
            Direction::Left => EditorState { col: if self.col > 0 { self.col - 1 } else { 0 }, ..self },
            Direction::Front => EditorState { col: 0, ..self },
            Direction::Back => EditorState { col: self.line().len() as int, ..self },
        };
        stepped.clamp()
    }

    /// The line under the cursor is split at the cursor; the cursor goes to the
    /// start of the second half.
    pub open spec fn insert_new_line(self) -> EditorState {
        let head = self.line().subrange(0, self.col);
        let tail = self.line().subrange(self.col, self.line().len() as int);
        EditorState {
            lines: self.lines.update(self.row, head).insert(self.row + 1, tail),
            row: self.row + 1,
            col: 0,
            saved: false,
            ..self
        }
    }

    /// The line under the cursor becomes empty.
    pub open spec fn clear_line(self) -> EditorState {
        EditorState {
            lines: self.lines.update(self.row, Seq::<char>::empty()),
            col: 0,
            saved: false,
            ..self
        }
    }

    /// `c` is put in at the cursor, which moves past it.
    pub open spec fn insert_char(self, c: char) -> EditorState {
        EditorState {
            lines: self.lines.update(self.row, self.line().insert(self.col, c)),
            col: self.col + 1,
            saved: false,
            ..self
        }
    }

    /// The character before the cursor goes; at the start of a line, the line
    /// is joined to the one above; at the start of the text nothing happens.
    pub open spec fn erase_char(self) -> EditorState {
        if self.col > 0 {
            EditorState {
                lines: self.lines.update(self.row, self.line().remove(self.col - 1)),
                col: self.col - 1,
                saved: false,
                ..self
            }
        } else if self.row > 0 {
            let above = self.lines[self.row - 1];
            EditorState {
                lines: self.lines.update(self.row - 1, above + self.line()).remove(self.row),
                row: self.row - 1,
                col: above.len() as int,
                saved: false,
                ..self
            }
        } else {
            self
        }
    }

    /// Quitting is honoured only when nothing is unsaved.
    pub open spec fn quit(self) -> EditorState {
        if self.saved {
            EditorState { alive: false, ..self }
        } else {
            self
        }
    }

    /// Quitting whatever is unsaved.
    pub open spec fn force_quit(self) -> EditorState {
        EditorState { alive: false, ..self }
    }

    /// The text has reached the disk.
    pub open spec fn mark_saved(self) -> EditorState {
        EditorState { saved: true, ..self }
    }

    /// The state after one command. `Save` changes nothing by itself: the
    /// write is the caller's, and `mark_saved` records its success.
    pub open spec fn apply(self, command: Command) -> EditorState {
        match command {
            Command::Move(direction) => self.move_cursor(direction),
            Command::ClearLine => self.clear_line(),
            Command::InsertChar(c) => self.insert_char(c),
            Command::InsertNewline => self.insert_new_line(),
            Command::Backspace => self.erase_char(),
            Command::Save => self,
            Command::Quit => self.quit(),
            Command::ForceQuit => self.force_quit(),
        }
    }

    /// The gutter offset is set anew from the number of lines.
    pub open spec fn with_gutter(self) -> EditorState {
        EditorState { col_offset: spec_digits(self.lines.len()) as int + 1, ..self }
    }

    /// The state after one key press.
    pub open spec fn handle_key(self, press: KeyPress) -> EditorState {
        match spec_decode(press) {
            Some(command) => self.apply(command).with_gutter(),
            None => self.with_gutter(),
        }
    }
}

/// What is left to the caller after a command: only `Save` leaves anything.
pub open spec fn spec_action(command: Option<Command>) -> Action {
    if command == Some(Command::Save) {
        Action::Save
    } else {
        Action::Nothing
    }
}

impl View for TextEditor {
    type V = EditorState;

    open spec fn view(&self) -> EditorState {
        EditorState {
            alive: self.alive,
            path: self.path@,
            saved: self.saved,
            lines: lines_view(self.lines@),
            row: self.cursor_row as int,
            col: self.cursor_col as int,
            col_offset: self.cursor_col_offset as int,
        }
    }
}

impl TextEditor {
    /// Whether the cursor addresses a position of the text, as every command
    /// asks of the editor it is given.
    pub fn is_valid(&self) -> (ok: bool)
        ensures
            ok == self@.wf(),
    {
        self.cursor_row < self.lines.len() && self.cursor_col
            <= self.lines[self.cursor_row].len()
    }

    /// Restores the cursor's validity: the row is pulled back to the last
    /// line, then the column to the end of its line.
    pub fn clamp(&mut self)
        requires
            old(self).lines.len() > 0,
        ensures
            final(self)@ == old(self)@.clamp(),
            final(self)@.wf(),
            final(self).lines == old(self).lines,
    {
        if self.cursor_row >= self.lines.len() {
            self.cursor_row = self.lines.len() - 1;
        }
        let len = self.lines[self.cursor_row].len();
        if self.cursor_col > len {
            self.cursor_col = len;
        }
    }

    /// Moves the cursor one step; at an edge of the text it stays.
    pub fn move_cursor(&mut self, direction: Direction)
        requires
            old(self)@.wf(),
        ensures
            final(self)@ == old(self)@.move_cursor(direction),
            final(self)@.wf(),
            final(self).lines == old(self).lines,
    {
        assert(self.cursor_row < self.lines.len());
        assert(self.cursor_col <= self.lines[self.cursor_row as int].len());
        match direction {
            Direction::Up => {
                if self.cursor_row > 0 {
                    self.cursor_row = self.cursor_row - 1;
                }
            },
            Direction::Right => {
                if self.cursor_col < usize::MAX {
                    self.cursor_col = self.cursor_col + 1;
                }
            },
            Direction::Down => {
                if self.cursor_row < usize::MAX {
                    self.cursor_row = self.cursor_row + 1;
                }
            },
            Direction::Left => {
                if self.cursor_col > 0 {
                    self.cursor_col = self.cursor_col - 1;
                }
            },
            Direction::Front => {
                self.cursor_col = 0;
            },
            Direction::Back => {
                self.cursor_col = self.lines[self.cursor_row].len();
            },
        }
        self.clamp();
    }

    /// Splits the line under the cursor at the cursor.
    pub fn insert_new_line(&mut self)
        requires
            old(self)@.wf(),
        ensures
            final(self)@ == old(self)@.insert_new_line(),
            final(self)@.wf(),
    {
        let ghost before = self@;
        assert(self.cursor_row < self.lines.len());
        if self.cursor_col == 0 {
            self.lines.insert(self.cursor_row, Vec::new());
        } else if self.cursor_col == self.lines[self.cursor_row].len() {
            self.lines.insert(self.cursor_row + 1, Vec::new());
        } else {
            let tail = self.lines[self.cursor_row].split_off(self.cursor_col);
            self.lines.insert(self.cursor_row + 1, tail);
        }
        self.cursor_row = self.cursor_row + 1;
        self.cursor_col = 0;
        self.saved = false;
        assert(self@.lines =~= before.insert_new_line().lines) by {
            assert forall|i: int| 0 <= i < self@.lines.len() implies #[trigger] self@.lines[i]
                =~= before.insert_new_line().lines[i] by {}
        }
        self.clamp();
    }

    /// Empties the line under the cursor.
    pub fn clear_line(&mut self)
        requires
            old(self)@.wf(),
        ensures
            final(self)@ == old(self)@.clear_line(),
            final(self)@.wf(),
    {
        let ghost before = self@;
        self.lines[self.cursor_row].clear();
        self.cursor_col = 0;
        self.saved = false;
        assert(self@.lines =~= before.clear_line().lines);
        self.clamp();
    }

    /// Types `c` at the cursor.
    pub fn insert_char(&mut self, c: char)
        requires
            old(self)@.wf(),
        ensures
            final(self)@ == old(self)@.insert_char(c),
            final(self)@.wf(),
    {
        let ghost before = self@;
        self.lines[self.cursor_row].insert(self.cursor_col, c);
        assert(self.cursor_col < self.lines[self.cursor_row as int].len());
        self.cursor_col = self.cursor_col + 1;
        self.saved = false;
        assert(self@.lines =~= before.insert_char(c).lines);
        self.clamp();
    }

    /// Deletes backwards from the cursor.
    pub fn erase_char(&mut self)
        requires
            old(self)@.wf(),
        ensures
            final(self)@ == old(self)@.erase_char(),
            final(self)@.wf(),
    {
        let ghost before = self@;
        if self.cursor_col > 0 {
            self.lines[self.cursor_row].remove(self.cursor_col - 1);
            self.cursor_col = self.cursor_col - 1;
        } else if self.cursor_row > 0 {
            self.cursor_col = self.lines[self.cursor_row - 1].len();
            let mut line = self.lines.remove(self.cursor_row);
            self.lines[self.cursor_row - 1].append(&mut line);
            self.cursor_row = self.cursor_row - 1;
        } else {
            return;
        }
        self.saved = false;
        assert(self@.lines =~= before.erase_char().lines);
        self.clamp();
    }

    /// Quits if nothing is unsaved; otherwise does nothing.
    pub fn quit(&mut self)
        ensures
            final(self)@ == old(self)@.quit(),
    {
        if self.saved {
            self.alive = false;
        }
    }

    /// Quits, discarding what is unsaved.
    pub fn force_quit(&mut self)
        ensures
            final(self)@ == old(self)@.force_quit(),
    {
        self.alive = false;
    }

    /// Records that the text has been written out.
    pub fn mark_saved(&mut self)
        ensures
            final(self)@ == old(self)@.mark_saved(),
    {
        self.saved = true;
    }

    /// The width in digits of the largest line number.
    pub fn get_line_number_width(&self) -> (width: u16)
        ensures
            width == spec_digits(self@.lines.len()),
            1 <= width <= 20,
    {
        digits(self.lines.len())
    }

    /// Carries out one command and says what is left to the caller.
    pub fn apply(&mut self, command: Command) -> (action: Action)
        requires
            old(self)@.wf(),
        ensures
            final(self)@ == old(self)@.apply(command),
            final(self)@.wf(),
            action == spec_action(Some(command)),
    {
        let mut action = Action::Nothing;
        match command {
            Command::Move(direction) => self.move_cursor(direction),
            Command::ClearLine => self.clear_line(),
            Command::InsertChar(c) => self.insert_char(c),
            Command::InsertNewline => self.insert_new_line(),
            Command::Backspace => self.erase_char(),
            Command::Save => {
                action = Action::Save;
            },
            Command::Quit => self.quit(),
            Command::ForceQuit => self.force_quit(),
        }
        action
    }

    /// Decodes one key press, carries out its command, and sets the gutter
    /// offset from the number of lines.
    pub fn handle_key(&mut self, press: KeyPress) -> (action: Action)
        requires
            old(self)@.wf(),
        ensures
            final(self)@ == old(self)@.handle_key(press),
            final(self)@.wf(),
            action == spec_action(spec_decode(press)),
    {
        let action = match decode(press) {
            Some(command) => self.apply(command),
            None => Action::Nothing,
        };
        self.cursor_col_offset = self.get_line_number_width() + 1;
        action
    }
}

} // verus!

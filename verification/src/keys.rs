//! Key presses as plain values, and the commands they stand for.

use vstd::prelude::*;
use crate::text_editor::Direction;

verus! {

/// The keys the editor distinguishes. Every key it has no use for is `Other`.
#[derive(Clone, Copy, Debug, PartialEq, Eq, Structural)]
pub enum Key {
    Char(char),
    Esc,
    Up,
    Right,
    Down,
    Left,
    Home,
    End,
    Enter,
    Backspace,
    Other,
}

/// One key press: the key, and whether the control modifier was held.
#[derive(Clone, Copy, Debug, PartialEq, Eq, Structural)]
pub struct KeyPress {
    pub key: Key,
    pub control: bool,
}

/// A logical command of the editor.
#[derive(Clone, Copy, Debug, PartialEq, Eq, Structural)]
pub enum Command {
    Move(Direction),
    ClearLine,
    InsertChar(char),
    InsertNewline,
    Backspace,
    Save,
    Quit,
    ForceQuit,
}

/// The command a key press stands for, if any.
///
/// Control-modified letters are looked at before the bare keys, so that
/// `Ctrl+s` saves while a bare `s` is typed into the buffer. A control-modified
/// letter without a meaning of its own is typed like the bare letter.
pub open spec fn spec_decode(press: KeyPress) -> Option<Command> {
    match press.key {
        Key::Char(c) => if press.control && c == 's' {
            Some(Command::Save)
        } else if press.control && c == 'q' {
            Some(Command::ForceQuit)
        } else if press.control && c == 'a' {
            Some(Command::Move(Direction::Front))
        } else if press.control && c == 'e' {
            Some(Command::Move(Direction::Back))
        } else if press.control && c == 'u' {
            Some(Command::ClearLine)
        } else {
            Some(Command::InsertChar(c))
        },
        Key::Esc => Some(Command::Quit),
        Key::Up => Some(Command::Move(Direction::Up)),
        Key::Right => Some(Command::Move(Direction::Right)),
        Key::Down => Some(Command::Move(Direction::Down)),
        Key::Left => Some(Command::Move(Direction::Left)),
        Key::Home => Some(Command::Move(Direction::Front)),
        Key::End => Some(Command::Move(Direction::Back)),
        Key::Enter => Some(Command::InsertNewline),
        Key::Backspace => Some(Command::Backspace),
        Key::Other => None,
    }
}

/// Decodes one key press into the command it stands for.
pub fn decode(press: KeyPress) -> (cmd: Option<Command>)
    ensures
        cmd == spec_decode(press),
{
    match press.key {
        Key::Char(c) => {
            if press.control && c == 's' {
                Some(Command::Save)
            } else if press.control && c == 'q' {
                Some(Command::ForceQuit)
            } else if press.control && c == 'a' {
                Some(Command::Move(Direction::Front))
            } else if press.control && c == 'e' {
                Some(Command::Move(Direction::Back))
            } else if press.control && c == 'u' {
                Some(Command::ClearLine)
            } else {
                Some(Command::InsertChar(c))
            }
        },
        Key::Esc => Some(Command::Quit),
        Key::Up => Some(Command::Move(Direction::Up)),
        Key::Right => Some(Command::Move(Direction::Right)),
        Key::Down => Some(Command::Move(Direction::Down)),
        Key::Left => Some(Command::Move(Direction::Left)),
        Key::Home => Some(Command::Move(Direction::Front)),
        Key::End => Some(Command::Move(Direction::Back)),
        Key::Enter => Some(Command::InsertNewline),
        Key::Backspace => Some(Command::Backspace),
        Key::Other => None,
    }
}

} // verus!

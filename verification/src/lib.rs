//! A line-oriented text buffer with a cursor, and the editing commands that
//! keep the two consistent.

pub mod document;
pub mod keys;
pub mod laws;
pub mod layout;
pub mod text_editor;

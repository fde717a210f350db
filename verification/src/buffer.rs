//! A snapshot of one editor buffer and a visual selection over it.

use vstd::prelude::*;

use crate::cursor::Cursor;

verus! {

/// A visual selection: where it starts and where it ends.
#[derive(Debug, Clone, Copy, PartialEq, Eq, Structural)]
pub struct Selection {
    pub start: Cursor,
    pub end: Cursor,
}

/// What the editor knows of one buffer when a request leaves: its path and
/// type, its lines, the cursor, and its flags.
#[derive(Debug, Clone)]
pub struct BufferData {
    pub filepath: Option<String>,
    pub filetype: String,
    pub content: Vec<String>,
    pub cursor: Cursor,
    pub modified: bool,
    pub readonly: bool,
}

/// The editor's snapshot of one undo tree: the current and last change
/// sequence numbers and the saved one.
#[derive(Debug, Clone, Copy, PartialEq, Eq, Structural)]
pub struct UndotreeData {
    pub sequence_current: usize,
    pub sequence_last: usize,
    pub save_current: usize,
}

} // verus!

//! Positions and ranges of the editor model, and the cursor combining them.

pub mod nvim_range;
pub mod nvim_range_v2;
pub mod range_impl;
pub mod usize_impl;

use vstd::prelude::*;

pub use nvim_range::{FromNvimBound, Indexed, NvimBound, OneIndexed, ZeroIndexed};
pub use range_impl::{ColRange, RowRange};
pub use usize_impl::{Col, Row};

verus! {

/// One position of the editor: a row and a column.
#[derive(Debug, Clone, Copy, PartialEq, Eq, Structural)]
pub struct Cursor {
    pub row: Row,
    pub col: Col,
}

impl Cursor {
    /// The top-left position.
    pub fn zero() -> (r: Cursor)
        ensures
            r.row.0 == 0,
            r.col.0 == 0,
    {
        Cursor { row: Row(0), col: Col(0) }
    }

    /// The start of a row: its first column.
    pub fn start_no_column(row: Row) -> (r: Cursor)
        ensures
            r.row == row,
            r.col.0 == 0,
    {
        Cursor { row, col: Col::min_value() }
    }

    /// The end of a row: the ceiling column, standing for the end of the
    /// line.
    pub fn end_no_column(row: Row) -> (r: Cursor)
        ensures
            r.row == row,
            r.col.0 == usize_impl::OFFSET_LIMIT,
    {
        Cursor { row, col: Col::max_value() }
    }

    /// Whether this position comes before `other`, row first then column.
    pub fn before(&self, other: &Cursor) -> (r: bool)
        ensures
            r == (self.row.0 < other.row.0 || (self.row.0 == other.row.0 && self.col.0
                < other.col.0)),
    {
        self.row.0 < other.row.0 || (self.row.0 == other.row.0 && self.col.0 < other.col.0)
    }

    /// The row and column ranges spanned from `start` to `end`.
    pub fn join(start: &Cursor, end: &Cursor) -> (r: (RowRange, ColRange))
        ensures
            r.0.start == start.row,
            r.0.end == end.row,
            r.1.start == start.col,
            r.1.end == end.col,
    {
        (
            RowRange { start: start.row, end: end.row },
            ColRange { start: start.col, end: end.col },
        )
    }

    /// The ranges handed to a text read: the same span as `join`.
    pub fn join_get_text(start: &Cursor, end: &Cursor) -> (r: (RowRange, ColRange))
        ensures
            r.0.start == start.row,
            r.0.end == end.row,
            r.1.start == start.col,
            r.1.end == end.col,
    {
        Cursor::join(start, end)
    }

    /// The ranges handed to a text write: the same span as `join`.
    pub fn join_set_text(start: &Cursor, end: &Cursor) -> (r: (RowRange, ColRange))
        ensures
            r.0.start == start.row,
            r.0.end == end.row,
            r.1.start == start.col,
            r.1.end == end.col,
    {
        Cursor::join(start, end)
    }
}

} // verus!

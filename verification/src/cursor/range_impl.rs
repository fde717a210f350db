//! Row and column ranges of the editor model. Ends are stored inclusively;
//! conversions from half-open offsets pull the end in by one, except at the
//! ceiling, which always means "to the end of the buffer".

use vstd::prelude::*;

use super::usize_impl::{Col, OFFSET_LIMIT, Row, sub_sat};

verus! {

/// An inclusive range of buffer rows.
#[derive(Clone, Copy, Eq, PartialEq, Structural, Debug)]
pub struct RowRange {
    pub start: Row,
    pub end: Row,
}

/// An inclusive range of buffer columns.
#[derive(Clone, Copy, Eq, PartialEq, Structural, Debug)]
pub struct ColRange {
    pub start: Col,
    pub end: Col,
}

/// The inclusive end that a half-open end offset denotes: one back, except
/// at the ceiling.
pub open spec fn spec_inclusive_end(end: int) -> int {
    if end == OFFSET_LIMIT {
        end
    } else if end >= 1 {
        end - 1
    } else {
        0
    }
}

impl RowRange {
    /// The whole buffer.
    pub fn full() -> (r: RowRange)
        ensures
            r.start.0 == 0,
            r.end.0 == OFFSET_LIMIT,
    {
        RowRange { start: Row(0), end: Row(OFFSET_LIMIT) }
    }

    /// The rows of the half-open `start..end`.
    pub fn from_range(start: usize, end: usize) -> (r: RowRange)
        ensures
            r.start.0 == start,
            r.end.0 == spec_inclusive_end(end as int),
    {
        RowRange { start: Row(start), end: Row(inclusive_end(end)) }
    }

    /// The rows of the inclusive `start..=end`.
    pub fn from_range_inclusive(start: usize, end: usize) -> (r: RowRange)
        ensures
            r.start.0 == start,
            r.end.0 == end,
    {
        RowRange { start: Row(start), end: Row(end) }
    }

    /// The single-row range at `value`.
    pub fn from_row(value: Row) -> (r: RowRange)
        ensures
            r.start == value,
            r.end == value,
    {
        RowRange { start: value, end: value }
    }

    /// Whether the row lies between the bounds, both included.
    pub fn contains(&self, item: Row) -> (r: bool)
        ensures
            r == (self.start.0 <= item.0 && item.0 <= self.end.0),
    {
        self.start.0 <= item.0 && item.0 <= self.end.0
    }

    /// The absolute distance between the bounds.
    pub fn len_abs(&self) -> (r: usize)
        ensures
            r == crate::form::row_col::spec_len_between(self.start.0 as int, self.end.0 as int),
    {
        if self.end.0 >= self.start.0 {
            self.end.0 - self.start.0
        } else {
            self.start.0 - self.end.0
        }
    }

    /// Both bounds.
    pub fn tuple(&self) -> (r: (Row, Row))
        ensures
            r.0 == self.start,
            r.1 == self.end,
    {
        (self.start, self.end)
    }

    /// Both bounds moved down by `rhs`, saturating at the top of `usize`.
    pub fn plus(self, rhs: usize) -> (r: RowRange)
        ensures
            r.start.0 == if self.start.0 + rhs <= usize::MAX {
                self.start.0 + rhs
            } else {
                usize::MAX as int
            },
            r.end.0 == if self.end.0 + rhs <= usize::MAX {
                self.end.0 + rhs
            } else {
                usize::MAX as int
            },
    {
        RowRange { start: self.start.plus(rhs), end: self.end.plus(rhs) }
    }

    /// Both bounds moved up by `rhs`, saturating at zero.
    pub fn minus(self, rhs: usize) -> (r: RowRange)
        ensures
            r.start.0 == if self.start.0 >= rhs {
                self.start.0 - rhs
            } else {
                0
            },
            r.end.0 == if self.end.0 >= rhs {
                self.end.0 - rhs
            } else {
                0
            },
    {
        RowRange { start: self.start.minus(rhs), end: self.end.minus(rhs) }
    }
}

impl ColRange {
    /// The whole line.
    pub fn full() -> (r: ColRange)
        ensures
            r.start.0 == 0,
            r.end.0 == OFFSET_LIMIT,
    {
        ColRange { start: Col(0), end: Col(OFFSET_LIMIT) }
    }

    /// The columns of the half-open `start..end`.
    pub fn from_range(start: usize, end: usize) -> (r: ColRange)
        ensures
            r.start.0 == start,
            r.end.0 == spec_inclusive_end(end as int),
    {
        ColRange { start: Col(start), end: Col(inclusive_end(end)) }
    }

    /// The columns of the inclusive `start..=end`.
    pub fn from_range_inclusive(start: usize, end: usize) -> (r: ColRange)
        ensures
            r.start.0 == start,
            r.end.0 == end,
    {
        ColRange { start: Col(start), end: Col(end) }
    }

    /// The single-column range at `value`.
    pub fn from_col(value: Col) -> (r: ColRange)
        ensures
            r.start == value,
            r.end == value,
    {
        ColRange { start: value, end: value }
    }

    /// Whether the column lies between the bounds, both included.
    pub fn contains(&self, item: Col) -> (r: bool)
        ensures
            r == (self.start.0 <= item.0 && item.0 <= self.end.0),
    {
        self.start.0 <= item.0 && item.0 <= self.end.0
    }

    /// The absolute distance between the bounds.
    pub fn len_abs(&self) -> (r: usize)
        ensures
            r == crate::form::row_col::spec_len_between(self.start.0 as int, self.end.0 as int),
    {
        if self.end.0 >= self.start.0 {
            self.end.0 - self.start.0
        } else {
            self.start.0 - self.end.0
        }
    }

    /// Both bounds.
    pub fn tuple(&self) -> (r: (Col, Col))
        ensures
            r.0 == self.start,
            r.1 == self.end,
    {
        (self.start, self.end)
    }
}

/// The inclusive end that a half-open end offset denotes.
pub fn inclusive_end(end: usize) -> (r: usize)
    ensures
        r == spec_inclusive_end(end as int),
{
    if end == OFFSET_LIMIT {
        end
    } else {
        sub_sat(end, 1)
    }
}

} // verus!

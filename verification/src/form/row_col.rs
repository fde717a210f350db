//! Row and column positions of the form controller, with inclusive and
//! exclusive range views over them.

use vstd::prelude::*;

verus! {

/// A zero-based row of the form controller.
#[derive(Clone, Copy, Eq, PartialEq, Structural, Debug)]
pub struct Row(pub usize);

/// A zero-based column of the form controller.
#[derive(Clone, Copy, Eq, PartialEq, Structural, Debug)]
pub struct Col(pub usize);

/// A one-based row, as the host editor reports it.
#[derive(Clone, Copy, Eq, PartialEq, Structural, Debug)]
pub struct Row1Indexed(pub usize);

/// A one-based column.
#[derive(Clone, Copy, Eq, PartialEq, Structural, Debug)]
pub struct Col1Indexed(pub usize);

impl Row1Indexed {
    /// The zero-based row, one below, clamped at zero.
    pub fn to_row(self) -> (r: Row)
        ensures
            r.0 == if self.0 >= 1 {
                self.0 - 1
            } else {
                0
            },
    {
        Row(if self.0 >= 1 {
            self.0 - 1
        } else {
            0
        })
    }

    /// The one-based row above a zero-based one, clamped at the top.
    pub fn from_row(value: Row) -> (r: Row1Indexed)
        ensures
            r.0 == if value.0 < usize::MAX {
                value.0 + 1
            } else {
                usize::MAX as int
            },
    {
        Row1Indexed(if value.0 < usize::MAX {
            value.0 + 1
        } else {
            usize::MAX
        })
    }
}

impl Col1Indexed {
    /// The zero-based column, one below, clamped at zero.
    pub fn to_col(self) -> (r: Col)
        ensures
            r.0 == if self.0 >= 1 {
                self.0 - 1
            } else {
                0
            },
    {
        Col(if self.0 >= 1 {
            self.0 - 1
        } else {
            0
        })
    }

    /// The one-based column above a zero-based one, clamped at the top.
    pub fn from_col(value: Col) -> (r: Col1Indexed)
        ensures
            r.0 == if value.0 < usize::MAX {
                value.0 + 1
            } else {
                usize::MAX as int
            },
    {
        Col1Indexed(if value.0 < usize::MAX {
            value.0 + 1
        } else {
            usize::MAX
        })
    }
}

/// A row range whose `contains` test takes both bounds in.
#[derive(Clone, Eq, PartialEq, Structural, Debug)]
pub struct RowRange {
    pub start: Row,
    pub end: Row,
}

/// A column range whose `contains` test takes both bounds in.
#[derive(Clone, Eq, PartialEq, Structural, Debug)]
pub struct ColRange {
    pub start: Col,
    pub end: Col,
}

/// A row range read with both bounds included.
#[derive(Clone, Eq, PartialEq, Structural, Debug)]
pub struct RowRangeInclusive {
    pub start: Row,
    pub end: Row,
}

/// A column range read with both bounds included.
#[derive(Clone, Eq, PartialEq, Structural, Debug)]
pub struct ColRangeInclusive {
    pub start: Col,
    pub end: Col,
}

/// A row range read with its end bound excluded.
#[derive(Clone, Eq, PartialEq, Structural, Debug)]
pub struct RowRangeExclusive {
    pub start: Row,
    pub end: Row,
}

/// A column range read with its end bound excluded.
#[derive(Clone, Eq, PartialEq, Structural, Debug)]
pub struct ColRangeExclusive {
    pub start: Col,
    pub end: Col,
}

/// The absolute distance between two offsets.
pub open spec fn spec_len_between(start: int, end: int) -> int {
    if end >= start {
        end - start
    } else {
        start - end
    }
}

impl RowRange {
    /// A range holding the rows of `start..end`, both offsets taken as they
    /// come.
    pub fn from_range(start: usize, end: usize) -> (r: RowRange)
        ensures
            r.start.0 == start,
            r.end.0 == end,
    {
        RowRange { start: Row(start), end: Row(end) }
    }

    /// The single-row range at `value`.
    pub fn from_row(value: usize) -> (r: RowRange)
        ensures
            r.start.0 == value,
            r.end.0 == value,
    {
        RowRange { start: Row(value), end: Row(value) }
    }

    /// This range read with its end excluded.
    pub fn exclusive(self) -> (r: RowRangeExclusive)
        ensures
            r.start == self.start,
            r.end == self.end,
    {
        RowRangeExclusive { start: self.start, end: self.end }
    }

    /// This range read with both bounds included.
    pub fn inclusive(self) -> (r: RowRangeInclusive)
        ensures
            r.start == self.start,
            r.end == self.end,
    {
        RowRangeInclusive { start: self.start, end: self.end }
    }

    /// Whether `item` lies between the bounds, both included.
    pub fn contains(&self, item: usize) -> (r: bool)
        ensures
            r == (self.start.0 <= item && item <= self.end.0),
    {
        self.start.0 <= item && item <= self.end.0
    }

    /// Whether the row lies between the bounds, both included.
    pub fn contains_row(&self, item: Row) -> (r: bool)
        ensures
            r == (self.start.0 <= item.0 && item.0 <= self.end.0),
    {
        self.contains(item.0)
    }

    /// The absolute distance between the bounds.
    pub fn len(&self) -> (r: usize)
        ensures
            r == spec_len_between(self.start.0 as int, self.end.0 as int),
    {
        if self.end.0 >= self.start.0 {
            self.end.0 - self.start.0
        } else {
            self.start.0 - self.end.0
        }
    }
}

impl RowRangeInclusive {
    /// Whether the row lies between the bounds, both included.
    pub fn contains_row(&self, item: Row) -> (r: bool)
        ensures
            r == (self.start.0 <= item.0 && item.0 <= self.end.0),
    {
        self.start.0 <= item.0 && item.0 <= self.end.0
    }
}

impl RowRangeExclusive {
    /// Whether the row lies in the range, the end excluded.
    pub fn contains_row(&self, item: Row) -> (r: bool)
        ensures
            r == (self.start.0 <= item.0 && item.0 < self.end.0),
    {
        self.start.0 <= item.0 && item.0 < self.end.0
    }
}

impl ColRange {
    /// A range holding the columns of `start..end`, both offsets taken as
    /// they come.
    pub fn from_range(start: usize, end: usize) -> (r: ColRange)
        ensures
            r.start.0 == start,
            r.end.0 == end,
    {
        ColRange { start: Col(start), end: Col(end) }
    }

    /// The single-column range at `value`.
    pub fn from_col(value: usize) -> (r: ColRange)
        ensures
            r.start.0 == value,
            r.end.0 == value,
    {
        ColRange { start: Col(value), end: Col(value) }
    }

    /// This range read with its end excluded.
    pub fn exclusive(self) -> (r: ColRangeExclusive)
        ensures
            r.start == self.start,
            r.end == self.end,
    {
        ColRangeExclusive { start: self.start, end: self.end }
    }

    /// This range read with both bounds included.
    pub fn inclusive(self) -> (r: ColRangeInclusive)
        ensures
            r.start == self.start,
            r.end == self.end,
    {
        ColRangeInclusive { start: self.start, end: self.end }
    }

    /// Whether `item` lies between the bounds, both included.
    pub fn contains(&self, item: usize) -> (r: bool)
        ensures
            r == (self.start.0 <= item && item <= self.end.0),
    {
        self.start.0 <= item && item <= self.end.0
    }

    /// Whether the column lies between the bounds, both included.
    pub fn contains_col(&self, item: Col) -> (r: bool)
        ensures
            r == (self.start.0 <= item.0 && item.0 <= self.end.0),
    {
        self.contains(item.0)
    }

    /// The absolute distance between the bounds.
    pub fn len(&self) -> (r: usize)
        ensures
            r == spec_len_between(self.start.0 as int, self.end.0 as int),
    {
        if self.end.0 >= self.start.0 {
            self.end.0 - self.start.0
        } else {
            self.start.0 - self.end.0
        }
    }
}

impl ColRangeInclusive {
    /// Whether the column lies between the bounds, both included.
    pub fn contains_col(&self, item: Col) -> (r: bool)
        ensures
            r == (self.start.0 <= item.0 && item.0 <= self.end.0),
    {
        self.start.0 <= item.0 && item.0 <= self.end.0
    }
}

impl ColRangeExclusive {
    /// Whether the column lies in the range, the end excluded.
    pub fn contains_col(&self, item: Col) -> (r: bool)
        ensures
            r == (self.start.0 <= item.0 && item.0 < self.end.0),
    {
        self.start.0 <= item.0 && item.0 < self.end.0
    }
}

} // verus!

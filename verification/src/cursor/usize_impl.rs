//! Buffer rows and columns: saturating offset arithmetic below a fixed
//! ceiling that stands for "the end of the buffer".

use vstd::prelude::*;

verus! {

/// The greatest row or column offset the editor model uses; it stands for
/// "as far as the buffer goes".
pub const OFFSET_LIMIT: usize = 0x7fff_ffff;

/// A zero-based buffer row.
#[derive(Clone, Copy, Eq, PartialEq, Structural, Debug)]
pub struct Row(pub usize);

/// A zero-based buffer column.
#[derive(Clone, Copy, Eq, PartialEq, Structural, Debug)]
pub struct Col(pub usize);

impl Row {
    /// The least row.
    pub fn min_value() -> (r: Row)
        ensures
            r.0 == 0,
    {
        Row(0)
    }

    /// The ceiling row, standing for the end of the buffer.
    pub fn max_value() -> (r: Row)
        ensures
            r.0 == OFFSET_LIMIT,
    {
        Row(OFFSET_LIMIT)
    }

    /// The raw offset.
    pub fn to_usize(&self) -> (r: usize)
        ensures
            r == self.0,
    {
        self.0
    }

    /// This row moved down by `rhs`, saturating at the top of `usize`.
    pub fn plus(self, rhs: usize) -> (r: Row)
        ensures
            r.0 == if self.0 + rhs <= usize::MAX {
                self.0 + rhs
            } else {
                usize::MAX as int
            },
    {
        Row(add_sat(self.0, rhs))
    }

    /// This row moved up by `rhs`, saturating at zero.
    pub fn minus(self, rhs: usize) -> (r: Row)
        ensures
            r.0 == if self.0 >= rhs {
                self.0 - rhs
            } else {
                0
            },
    {
        Row(sub_sat(self.0, rhs))
    }
}

impl Col {
    /// The least column.
    pub fn min_value() -> (r: Col)
        ensures
            r.0 == 0,
    {
        Col(0)
    }

    /// The ceiling column, standing for the end of the line.
    pub fn max_value() -> (r: Col)
        ensures
            r.0 == OFFSET_LIMIT,
    {
        Col(OFFSET_LIMIT)
    }

    /// The raw offset.
    pub fn to_usize(&self) -> (r: usize)
        ensures
            r == self.0,
    {
        self.0
    }

    /// This column moved right by `rhs`, saturating at the top of `usize`.
    pub fn plus(self, rhs: usize) -> (r: Col)
        ensures
            r.0 == if self.0 + rhs <= usize::MAX {
                self.0 + rhs
            } else {
                usize::MAX as int
            },
    {
        Col(add_sat(self.0, rhs))
    }

    /// This column moved left by `rhs`, saturating at zero.
    pub fn minus(self, rhs: usize) -> (r: Col)
        ensures
            r.0 == if self.0 >= rhs {
                self.0 - rhs
            } else {
                0
            },
    {
        Col(sub_sat(self.0, rhs))
    }
}

/// Saturating addition on offsets.
pub fn add_sat(a: usize, b: usize) -> (r: usize)
    ensures
        r == if a + b <= usize::MAX {
            a + b
        } else {
            usize::MAX as int
        },
{
    if a <= usize::MAX - b {
        a + b
    } else {
        usize::MAX
    }
}

/// Saturating subtraction on offsets.
pub fn sub_sat(a: usize, b: usize) -> (r: usize)
    ensures
        r == if a >= b {
            a - b
        } else {
            0
        },
{
    if a >= b {
        a - b
    } else {
        0
    }
}

/// An offset moved by a signed distance, clamped into `usize`.
pub open spec fn spec_shift_signed(a: int, d: int) -> int {
    if a + d < 0 {
        0
    } else if a + d > usize::MAX {
        usize::MAX as int
    } else {
        a + d
    }
}

/// Shifts an offset by a signed distance, saturating both ways.
pub fn shift_signed(a: usize, d: isize) -> (r: usize)
    ensures
        r == spec_shift_signed(a as int, d as int),
{
    if d >= 0 {
        add_sat(a, d as usize)
    } else if d == isize::MIN {
        let mag = (isize::MAX as usize) + 1;
        sub_sat(a, mag)
    } else {
        sub_sat(a, (-d) as usize)
    }
}

} // verus!

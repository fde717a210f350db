//! A second cut of the editor-call bounds: ranges built from explicit bound
//! descriptions, normalised through one nine-case table.

use core::marker::PhantomData;

use vstd::prelude::*;

use super::range_impl::{ColRange, RowRange};
use super::usize_impl::{Col, OFFSET_LIMIT, Row, add_sat, sub_sat};

verus! {

/// Which way a normalisation rounds.
pub enum Direction {
    Up,
    Down,
}

/// One end of a range: a bound with its offset, or no bound at all.
#[derive(Clone, Copy, Eq, PartialEq, Structural, Debug)]
pub enum RangeBound {
    Included(usize),
    Excluded(usize),
    Unbounded,
}

/// The offset that `bound` denotes when read under `expected`: offsets move
/// one step (`one`, signed) when the two conventions disagree, saturating,
/// and an absent bound falls back to `unbounded`.
pub open spec fn spec_parse_bound(
    expected_excluded: bool,
    bound: RangeBound,
    unbounded: int,
    one: int,
) -> int {
    match bound {
        RangeBound::Included(v) => {
            if !expected_excluded {
                v as int
            } else {
                sat_shift(v as int, -one)
            }
        },
        RangeBound::Excluded(v) => {
            if !expected_excluded {
                sat_shift(v as int, one)
            } else {
                v as int
            }
        },
        RangeBound::Unbounded => unbounded,
    }
}

/// An integer moved by `d`, clamped into the offsets of `usize`.
pub open spec fn sat_shift(v: int, d: int) -> int {
    if v + d < 0 {
        0
    } else if v + d > usize::MAX {
        usize::MAX as int
    } else {
        v + d
    }
}

/// Normalises one bound description to an offset.
pub fn parse_bound(expected_excluded: bool, bound: RangeBound, unbounded: usize, one_up: bool) -> (r:
    usize)
    ensures
        r as int == spec_parse_bound(
            expected_excluded,
            bound,
            unbounded as int,
            if one_up {
                1
            } else {
                -1
            },
        ),
{
    match bound {
        RangeBound::Included(v) => {
            if !expected_excluded {
                v
            } else {
                if one_up {
                    sub_sat(v, 1)
                } else {
                    add_sat(v, 1)
                }
            }
        },
        RangeBound::Excluded(v) => {
            if !expected_excluded {
                if one_up {
                    add_sat(v, 1)
                } else {
                    sub_sat(v, 1)
                }
            } else {
                v
            }
        },
        RangeBound::Unbounded => unbounded,
    }
}

/// How many steps an indexing convention shifts a stored offset.
pub trait Indexed: Sized {
    spec fn spec_inc() -> nat;

    fn inc() -> (r: usize)
        ensures
            r as nat == Self::spec_inc(),
    ;
}

/// Offsets stored as they come.
pub struct ZeroIndexed;

/// Offsets stored one above their zero-based value.
pub struct OneIndexed;

impl Indexed for ZeroIndexed {
    open spec fn spec_inc() -> nat {
        0
    }

    fn inc() -> (r: usize) {
        0
    }
}

impl Indexed for OneIndexed {
    open spec fn spec_inc() -> nat {
        1
    }

    fn inc() -> (r: usize) {
        1
    }
}

/// Which side of a range a convention reads inward.
pub trait Bounded: Sized {
    spec fn spec_start_exclusive() -> bool;

    spec fn spec_end_exclusive() -> bool;

    fn start_exclusive() -> (r: bool)
        ensures
            r == Self::spec_start_exclusive(),
    ;

    fn end_exclusive() -> (r: bool)
        ensures
            r == Self::spec_end_exclusive(),
    ;
}

/// Both bounds read one step inward.
pub struct Exclusive;

/// The start read one step inward.
pub struct StartExclusive;

/// The end read one step inward.
pub struct EndExclusive;

/// Both bounds read as they stand.
pub struct Inclusive;

impl Bounded for Exclusive {
    open spec fn spec_start_exclusive() -> bool {
        true
    }

    open spec fn spec_end_exclusive() -> bool {
        true
    }

    fn start_exclusive() -> (r: bool) {
        true
    }

    fn end_exclusive() -> (r: bool) {
        true
    }
}

impl Bounded for StartExclusive {
    open spec fn spec_start_exclusive() -> bool {
        true
    }

    open spec fn spec_end_exclusive() -> bool {
        false
    }

    fn start_exclusive() -> (r: bool) {
        true
    }

    fn end_exclusive() -> (r: bool) {
        false
    }
}

impl Bounded for EndExclusive {
    open spec fn spec_start_exclusive() -> bool {
        false
    }

    open spec fn spec_end_exclusive() -> bool {
        true
    }

    fn start_exclusive() -> (r: bool) {
        false
    }

    fn end_exclusive() -> (r: bool) {
        true
    }
}

impl Bounded for Inclusive {
    open spec fn spec_start_exclusive() -> bool {
        false
    }

    open spec fn spec_end_exclusive() -> bool {
        false
    }

    fn start_exclusive() -> (r: bool) {
        false
    }

    fn end_exclusive() -> (r: bool) {
        false
    }
}

/// One offset under an indexing convention: stored shifted, read unshifted.
pub struct NvimBound<I: Indexed = ZeroIndexed> {
    pub value: usize,
    pub index: PhantomData<I>,
}

impl<I: Indexed> NvimBound<I> {
    /// Stores a zero-based offset under the convention, saturating at the
    /// top.
    pub fn new(value: usize) -> (r: NvimBound<I>)
        ensures
            r.value as int == if value + I::spec_inc() <= usize::MAX {
                value + I::spec_inc()
            } else {
                usize::MAX as int
            },
    {
        NvimBound { value: add_sat(value, I::inc()), index: PhantomData }
    }

    /// Takes an offset already written in the convention, unshifted.
    pub fn raw(value: usize) -> (r: NvimBound<I>)
        ensures
            r.value == value,
    {
        NvimBound { value, index: PhantomData }
    }

    /// The zero-based offset back, saturating at zero.
    pub fn value(&self) -> (r: usize)
        ensures
            r as int == if self.value >= I::spec_inc() {
                self.value - I::spec_inc()
            } else {
                0
            },
    {
        sub_sat(self.value, I::inc())
    }
}

/// A range built from two explicit bound descriptions.
pub struct NvimRange<B: Bounded = Inclusive, I: Indexed = ZeroIndexed> {
    pub start: NvimBound<I>,
    pub end: NvimBound<I>,
    pub bound: PhantomData<B>,
}

impl<B: Bounded, I: Indexed> NvimRange<B, I> {
    /// Normalises two bound descriptions into the stored offsets: an absent
    /// start falls to zero, an absent end to the ceiling.
    pub fn new(start: RangeBound, end: RangeBound) -> (r: NvimRange<B, I>) {
        let s = parse_bound(B::start_exclusive(), start, 0, true);
        let e = parse_bound(B::end_exclusive(), end, OFFSET_LIMIT, false);
        NvimRange { start: NvimBound::new(s), end: NvimBound::new(e), bound: PhantomData }
    }

    /// The zero-based start offset read under `expected`.
    pub fn start(&self, expected_excluded: bool) -> usize {
        let stored = if B::start_exclusive() {
            RangeBound::Excluded(self.start.value())
        } else {
            RangeBound::Included(self.start.value())
        };
        parse_bound(expected_excluded, stored, 0, true)
    }

    /// The zero-based end offset read under `expected`.
    pub fn end(&self, expected_excluded: bool) -> usize {
        let stored = if B::end_exclusive() {
            RangeBound::Excluded(self.end.value())
        } else {
            RangeBound::Included(self.end.value())
        };
        parse_bound(expected_excluded, stored, OFFSET_LIMIT, false)
    }
}

/// Converts one offset to and from its editor-call form.
pub trait FromNvimBound<I: Indexed>: Sized {
    fn from_nvim(value: NvimBound<I>) -> Self;

    fn into_nvim(self) -> NvimBound<I>;
}

impl<I: Indexed> FromNvimBound<I> for usize {
    fn from_nvim(value: NvimBound<I>) -> Self {
        value.value()
    }

    fn into_nvim(self) -> NvimBound<I> {
        NvimBound::raw(self)
    }
}

impl<I: Indexed> FromNvimBound<I> for Row {
    fn from_nvim(value: NvimBound<I>) -> Self {
        Row(value.value())
    }

    fn into_nvim(self) -> NvimBound<I> {
        NvimBound::new(self.0)
    }
}

impl<I: Indexed> FromNvimBound<I> for Col {
    fn from_nvim(value: NvimBound<I>) -> Self {
        Col(value.value())
    }

    fn into_nvim(self) -> NvimBound<I> {
        NvimBound::new(self.0)
    }
}

/// Converts both ends of a range to and from their editor-call form.
pub trait FromNvimRange<B: Bounded, I: Indexed>: Sized {
    fn from_nvim(value: NvimRange<B, I>) -> Self;

    fn into_nvim(self) -> NvimRange<B, I>;
}

impl<B: Bounded, I: Indexed> FromNvimRange<B, I> for RowRange {
    fn from_nvim(value: NvimRange<B, I>) -> Self {
        RowRange {
            start: Row(value.start(false)),
            end: Row(value.end(false)),
        }
    }

    fn into_nvim(self) -> NvimRange<B, I> {
        NvimRange::new(RangeBound::Included(self.start.0), RangeBound::Included(self.end.0))
    }
}

impl<B: Bounded, I: Indexed> FromNvimRange<B, I> for ColRange {
    fn from_nvim(value: NvimRange<B, I>) -> Self {
        ColRange {
            start: Col(value.start(false)),
            end: Col(value.end(false)),
        }
    }

    fn into_nvim(self) -> NvimRange<B, I> {
        NvimRange::new(RangeBound::Included(self.start.0), RangeBound::Included(self.end.0))
    }
}

} // verus!

//! Bounds and ranges as the host editor's calls expect them: zero- or
//! one-indexed offsets, with inclusive or exclusive ends, each choice a
//! marker type.

use core::marker::PhantomData;

use vstd::prelude::*;

use super::range_impl::{ColRange, RowRange};
use super::usize_impl::{Col, OFFSET_LIMIT, Row, add_sat, sub_sat};

verus! {

/// How many steps an indexing convention shifts a stored offset.
pub trait Indexed: Sized {
    spec fn spec_inc() -> nat;

    fn inc() -> (r: usize)
        ensures
            r as nat == Self::spec_inc(),
    ;
}

/// Offsets stored as they come.
pub struct ZeroIndexed;

/// Offsets stored one above their zero-based value.
pub struct OneIndexed;

impl Indexed for ZeroIndexed {
    open spec fn spec_inc() -> nat {
        0
    }

    fn inc() -> (r: usize) {
        0
    }
}

impl Indexed for OneIndexed {
    open spec fn spec_inc() -> nat {
        1
    }

    fn inc() -> (r: usize) {
        1
    }
}

/// Both bounds read as they stand.
pub struct Inclusive;

/// Both bounds read one step inward.
pub struct Exclusive;

/// The start read one step inward.
pub struct StartExclusive;

/// The end read one step inward.
pub struct EndExclusive;

/// Which side of a range a convention reads inward.
pub trait Bounded: Sized {
    spec fn spec_start_exclusive() -> bool;

    spec fn spec_end_exclusive() -> bool;

    fn start_exclusive() -> (r: bool)
        ensures
            r == Self::spec_start_exclusive(),
    ;

    fn end_exclusive() -> (r: bool)
        ensures
            r == Self::spec_end_exclusive(),
    ;
}

impl Bounded for Inclusive {
    open spec fn spec_start_exclusive() -> bool {
        false
    }

    open spec fn spec_end_exclusive() -> bool {
        false
    }

    fn start_exclusive() -> (r: bool) {
        false
    }

    fn end_exclusive() -> (r: bool) {
        false
    }
}

impl Bounded for Exclusive {
    open spec fn spec_start_exclusive() -> bool {
        true
    }

    open spec fn spec_end_exclusive() -> bool {
        true
    }

    fn start_exclusive() -> (r: bool) {
        true
    }

    fn end_exclusive() -> (r: bool) {
        true
    }
}

impl Bounded for StartExclusive {
    open spec fn spec_start_exclusive() -> bool {
        true
    }

    open spec fn spec_end_exclusive() -> bool {
        false
    }

    fn start_exclusive() -> (r: bool) {
        true
    }

    fn end_exclusive() -> (r: bool) {
        false
    }
}

impl Bounded for EndExclusive {
    open spec fn spec_start_exclusive() -> bool {
        false
    }

    open spec fn spec_end_exclusive() -> bool {
        true
    }

    fn start_exclusive() -> (r: bool) {
        false
    }

    fn end_exclusive() -> (r: bool) {
        true
    }
}

/// One offset under an indexing convention: stored shifted, read unshifted.
pub struct NvimBound<I: Indexed = ZeroIndexed> {
    pub value: usize,
    pub index: PhantomData<I>,
}

impl<I: Indexed> NvimBound<I> {
    /// Stores a zero-based offset under the convention, saturating at the
    /// top.
    pub fn new(value: usize) -> (r: NvimBound<I>)
        ensures
            r.value as int == if value + I::spec_inc() <= usize::MAX {
                value + I::spec_inc()
            } else {
                usize::MAX as int
            },
    {
        NvimBound { value: add_sat(value, I::inc()), index: PhantomData }
    }

    /// Takes an offset already written in the convention, unshifted.
    pub fn raw(value: usize) -> (r: NvimBound<I>)
        ensures
            r.value == value,
    {
        NvimBound { value, index: PhantomData }
    }

    /// The zero-based offset back, saturating at zero.
    pub fn value(&self) -> (r: usize)
        ensures
            r as int == if self.value >= I::spec_inc() {
                self.value - I::spec_inc()
            } else {
                0
            },
    {
        sub_sat(self.value, I::inc())
    }
}

/// A range of two offsets under an indexing and a bound convention.
pub struct NvimRange<B: Bounded = Inclusive, I: Indexed = ZeroIndexed> {
    pub start: NvimBound<I>,
    pub end: NvimBound<I>,
    pub bound: PhantomData<B>,
}

impl<B: Bounded, I: Indexed> NvimRange<B, I> {
    /// Stores two zero-based offsets under the conventions.
    pub fn new(start: usize, end: usize) -> (r: NvimRange<B, I>) {
        NvimRange { start: NvimBound::new(start), end: NvimBound::new(end), bound: PhantomData }
    }

    /// The rows of the half-open `start..end`, end pulled in by one.
    pub fn from_range(start: usize, end: usize) -> (r: NvimRange<B, I>) {
        NvimRange::new(start, sub_sat(end, 1))
    }

    /// The zero-based start offset.
    pub fn start(&self) -> usize {
        self.start.value()
    }

    /// The zero-based end offset.
    pub fn end(&self) -> usize {
        self.end.value()
    }

    /// The start as an included bound: one step outward when the convention
    /// reads it exclusively.
    pub fn start_unbounded(&self) -> usize {
        if B::start_exclusive() {
            add_sat(self.start.value(), 1)
        } else {
            self.start.value()
        }
    }

    /// The end as an included bound: one step inward when the convention
    /// reads it exclusively.
    pub fn end_unbounded(&self) -> usize {
        if B::end_exclusive() {
            sub_sat(self.end.value(), 1)
        } else {
            self.end.value()
        }
    }
}

/// Converts one offset to and from its editor-call form.
pub trait FromNvimBound<I: Indexed>: Sized {
    fn from_nvim(value: NvimBound<I>) -> Self;

    fn into_nvim(self) -> NvimBound<I>;
}

/// Converts both ends of a range to and from their editor-call form.
pub trait FromNvimRange<B: Bounded, I: Indexed>: Sized {
    fn from_nvim(value: NvimRange<B, I>) -> Self;

    fn into_nvim(self) -> NvimRange<B, I>;
}

impl<I: Indexed> FromNvimBound<I> for NvimBound<I> {
    fn from_nvim(value: NvimBound<I>) -> Self {
        value
    }

    fn into_nvim(self) -> NvimBound<I> {
        self
    }
}

impl<I: Indexed> FromNvimBound<I> for usize {
    fn from_nvim(value: NvimBound<I>) -> Self {
        value.value()
    }

    fn into_nvim(self) -> NvimBound<I> {
        // An entry point from unparsed data: the value is taken as it came.
        NvimBound::raw(self)
    }
}

impl<I: Indexed> FromNvimBound<I> for Row {
    fn from_nvim(value: NvimBound<I>) -> Self {
        Row(value.value())
    }

    fn into_nvim(self) -> NvimBound<I> {
        NvimBound::new(self.0)
    }
}

impl<I: Indexed> FromNvimBound<I> for Col {
    fn from_nvim(value: NvimBound<I>) -> Self {
        Col(value.value())
    }

    fn into_nvim(self) -> NvimBound<I> {
        NvimBound::new(self.0)
    }
}

impl<B: Bounded, I: Indexed> FromNvimRange<B, I> for RowRange {
    fn from_nvim(value: NvimRange<B, I>) -> Self {
        RowRange { start: Row(value.start()), end: Row(value.end()) }
    }

    fn into_nvim(self) -> NvimRange<B, I> {
        NvimRange::new(self.start.0, self.end.0)
    }
}

impl<B: Bounded, I: Indexed> FromNvimRange<B, I> for ColRange {
    fn from_nvim(value: NvimRange<B, I>) -> Self {
        ColRange { start: Col(value.start()), end: Col(value.end()) }
    }

    fn into_nvim(self) -> NvimRange<B, I> {
        NvimRange::new(self.start.0, self.end.0)
    }
}

impl<B: Bounded, I: Indexed> FromNvimRange<B, I> for usize {
    fn from_nvim(value: NvimRange<B, I>) -> Self {
        value.start()
    }

    fn into_nvim(self) -> NvimRange<B, I> {
        NvimRange::new(self, self)
    }
}

/// The full range, from the first offset to the ceiling.
pub fn full_range<B: Bounded, I: Indexed>() -> (r: NvimRange<B, I>) {
    NvimRange::new(0, OFFSET_LIMIT)
}

} // verus!

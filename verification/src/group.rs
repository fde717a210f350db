//! Spans and tagged declarations of the merge engine.
//!
//! A `Range` is a span of one buffer, in bytes and in (row, column) points.
//! A `GroupTag` names one declaration: the ordered path of name segments
//! that identifies its position in the nesting hierarchy, the span of the
//! buffer it covers, and the declaration kind it was extracted for.

use vstd::prelude::*;

use crate::langs::rust::Tagger;

verus! {

/// A position in a buffer: zero-based row and column.
#[derive(Clone, Copy, Debug, PartialEq, Eq, Structural)]
pub struct Point {
    pub row: usize,
    pub column: usize,
}

/// A span of one buffer, in byte offsets and in points.
///
/// The reserved sentinel span (`Range::max_value`) has every byte offset at
/// `usize::MAX` and means "no concrete position: operate at the end of the
/// buffer".
#[derive(Clone, Copy, Debug, PartialEq, Eq, Structural)]
pub struct Range {
    pub start_byte: usize,
    pub end_byte: usize,
    pub start_point: Point,
    pub end_point: Point,
}

/// Lexicographic order on points: row first, then column.
pub open spec fn point_le(a: Point, b: Point) -> bool {
    a.row < b.row || (a.row == b.row && a.column <= b.column)
}

/// The smaller of two points.
pub open spec fn spec_point_min(a: Point, b: Point) -> Point {
    if point_le(a, b) {
        a
    } else {
        b
    }
}

/// The larger of two points.
pub open spec fn spec_point_max(a: Point, b: Point) -> Point {
    if point_le(a, b) {
        b
    } else {
        a
    }
}

pub fn point_min(a: Point, b: Point) -> (r: Point)
    ensures
        r == spec_point_min(a, b),
{
    if a.row < b.row || (a.row == b.row && a.column <= b.column) {
        a
    } else {
        b
    }
}

pub fn point_max(a: Point, b: Point) -> (r: Point)
    ensures
        r == spec_point_max(a, b),
{
    if a.row < b.row || (a.row == b.row && a.column <= b.column) {
        b
    } else {
        a
    }
}

/// The enclosing span of two spans: least start, greatest end. Used to merge
/// the captures of one query match (a declaration plus its leading doc
/// comments and attributes) into one replaceable span.
pub open spec fn spec_union(a: Range, b: Range) -> Range {
    Range {
        start_byte: if a.start_byte <= b.start_byte {
            a.start_byte
        } else {
            b.start_byte
        },
        end_byte: if a.end_byte >= b.end_byte {
            a.end_byte
        } else {
            b.end_byte
        },
        start_point: spec_point_min(a.start_point, b.start_point),
        end_point: spec_point_max(a.end_point, b.end_point),
    }
}

/// The total order on spans: by start byte, then end byte, then start
/// point, then end point.
pub open spec fn spec_range_le(a: Range, b: Range) -> bool {
    if a.start_byte != b.start_byte {
        a.start_byte < b.start_byte
    } else if a.end_byte != b.end_byte {
        a.end_byte < b.end_byte
    } else if a.start_point != b.start_point {
        point_le(a.start_point, b.start_point)
    } else {
        point_le(a.end_point, b.end_point)
    }
}

/// Decides the total order on spans.
pub fn range_le(a: &Range, b: &Range) -> (r: bool)
    ensures
        r == spec_range_le(*a, *b),
{
    if a.start_byte != b.start_byte {
        a.start_byte < b.start_byte
    } else if a.end_byte != b.end_byte {
        a.end_byte < b.end_byte
    } else if !(a.start_point.row == b.start_point.row && a.start_point.column
        == b.start_point.column) {
        point_le_exec(a.start_point, b.start_point)
    } else {
        point_le_exec(a.end_point, b.end_point)
    }
}

/// Decides the order on points.
pub fn point_le_exec(a: Point, b: Point) -> (r: bool)
    ensures
        r == point_le(a, b),
{
    a.row < b.row || (a.row == b.row && a.column <= b.column)
}

/// The sentinel span: no concrete position, operate at the end of the buffer.
pub open spec fn spec_max_range() -> Range {
    Range {
        start_byte: usize::MAX as usize,
        end_byte: usize::MAX as usize,
        start_point: Point { row: usize::MAX as usize, column: 0 },
        end_point: Point { row: usize::MAX as usize, column: 0 },
    }
}

impl Range {
    /// The sentinel span meaning "append at the end of the buffer".
    pub fn max_value() -> (r: Range)
        ensures
            r == spec_max_range(),
    {
        Range {
            start_byte: usize::MAX,
            end_byte: usize::MAX,
            start_point: Point { row: usize::MAX, column: 0 },
            end_point: Point { row: usize::MAX, column: 0 },
        }
    }

    /// The enclosing span of `self` and `rhs`.
    pub fn union(self, rhs: Range) -> (r: Range)
        ensures
            r == spec_union(self, rhs),
    {
        Range {
            start_byte: if self.start_byte <= rhs.start_byte {
                self.start_byte
            } else {
                rhs.start_byte
            },
            end_byte: if self.end_byte >= rhs.end_byte {
                self.end_byte
            } else {
                rhs.end_byte
            },
            start_point: point_min(self.start_point, rhs.start_point),
            end_point: point_max(self.end_point, rhs.end_point),
        }
    }

    /// Shrinks the span to the single position just before its last byte:
    /// the insertion point in front of a closing delimiter.
    pub fn before_last_character(self) -> (r: Range)
        requires
            self.end_byte >= 1,
        ensures
            r.start_byte == self.end_byte - 1,
            r.end_byte == self.end_byte - 1,
            r.start_point == self.end_point,
            r.end_point == self.end_point,
    {
        Range {
            start_byte: self.end_byte - 1,
            end_byte: self.end_byte - 1,
            start_point: self.end_point,
            end_point: self.end_point,
        }
    }
}

/// One tagged declaration: its path of name segments (outermost first, the
/// declaration's own name last for leaf kinds), the span it covers, and the
/// kind it was extracted for.
#[derive(Clone, Debug)]
pub struct GroupTag {
    pub tag: Vec<String>,
    pub range: Range,
    pub tagger: Tagger,
}

/// Path equality: two tags name the same declaration exactly when their
/// segment sequences are equal, character for character. Byte ranges play
/// no part in identity.
pub open spec fn tag_path_eq(a: Seq<Seq<char>>, b: Seq<Seq<char>>) -> bool {
    a == b
}

/// `prefix` is a strict prefix of `path`: every segment of `prefix` opens
/// `path`, and `path` has more segments after it.
pub open spec fn tag_strict_prefix(path: Seq<Seq<char>>, prefix: Seq<Seq<char>>) -> bool {
    prefix.len() < path.len() && path.take(prefix.len() as int) == prefix
}

impl GroupTag {
    /// The mathematical path of this tag: its segments as character
    /// sequences.
    pub open spec fn path(&self) -> Seq<Seq<char>> {
        self.tag.deep_view()
    }

    /// An equal tag: same path, same span, same kind.
    pub fn clone_tag(&self) -> (r: GroupTag)
        ensures
            r.tag.deep_view() == self.tag.deep_view(),
            r.tag@.len() == self.tag@.len(),
            r.range == self.range,
            r.tagger == self.tagger,
    {
        let mut tag: Vec<String> = Vec::new();
        let mut i: usize = 0;
        while i < self.tag.len()
            invariant
                i <= self.tag@.len(),
                tag@.len() == i,
                forall|k: int| 0 <= k < i ==> tag.deep_view()[k] == self.tag.deep_view()[k],
            decreases self.tag@.len() - i,
        {
            let ghost prev = tag@;
            let ghost prev_dv = tag.deep_view();
            tag.push(self.tag[i].clone());
            proof {
                let n = tag@.len() as int;
                assert(tag.deep_view()[n - 1] == tag@[n - 1]@);
                assert(self.tag.deep_view()[i as int] == self.tag@[i as int]@);
                assert forall|k: int| 0 <= k < n - 1 implies tag.deep_view()[k]
                    == self.tag.deep_view()[k] by {
                    assert(tag.deep_view()[k] == tag@[k]@);
                    assert(tag@[k] == prev[k]);
                    assert(prev_dv[k] == prev[k]@);
                }
            }
            i = i + 1;
        }
        proof {
            assert(tag.deep_view() =~= self.tag.deep_view());
        }
        GroupTag { tag, range: self.range, tagger: self.tagger }
    }

    /// Joined display form of the path, segments separated by `::`.
    pub fn joined(&self) -> (r: String)
        ensures
            r@ == spec_joined(self.path()),
    {
        let mut out = String::new();
        let mut i: usize = 0;
        proof {
            assert(self.path().take(0) =~= Seq::<Seq<char>>::empty());
        }
        while i < self.tag.len()
            invariant
                i <= self.tag.len(),
                out@ == spec_joined(self.path().take(i as int)),
            decreases self.tag.len() - i,
        {
            if i > 0 {
                out.append("::");
            }
            out.append(self.tag[i].as_str());
            i = i + 1;
            proof {
                assert(self.path().take(i as int).drop_last() =~= self.path().take(i - 1));
                assert(self.path().take(i as int).last() == self.path()[i - 1]);
            }
        }
        proof {
            assert(self.path().take(self.tag.len() as int) =~= self.path());
        }
        out
    }
}

/// The path's segments joined with `::`.
pub open spec fn spec_joined(path: Seq<Seq<char>>) -> Seq<char>
    decreases path.len(),
{
    if path.len() == 0 {
        Seq::empty()
    } else if path.len() == 1 {
        path[0]
    } else {
        spec_joined(path.drop_last()) + "::"@ + path.last()
    }
}

/// Segment-for-segment equality of two paths, decided executably.
pub fn tag_eq(a: &Vec<String>, b: &Vec<String>) -> (r: bool)
    ensures
        r == tag_path_eq(a.deep_view(), b.deep_view()),
{
    if a.len() != b.len() {
        proof {
            assert(a.deep_view().len() == a@.len());
            assert(b.deep_view().len() == b@.len());
        }
        return false;
    }
    let mut i: usize = 0;
    while i < a.len()
        invariant
            i <= a.len(),
            a.len() == b.len(),
            a.deep_view().len() == a@.len(),
            b.deep_view().len() == b@.len(),
            forall|j: int| 0 <= j < i ==> a.deep_view()[j] == b.deep_view()[j],
        decreases a.len() - i,
    {
        proof {
            assert(a.deep_view()[i as int] == a@[i as int]@);
            assert(b.deep_view()[i as int] == b@[i as int]@);
        }
        if !a[i].eq(&b[i]) {
            return false;
        }
        i = i + 1;
    }
    proof {
        assert(a.deep_view() =~= b.deep_view());
    }
    true
}

/// `prefix` is a strict prefix of `path`, decided executably.
pub fn tag_is_strict_prefix(path: &Vec<String>, prefix: &Vec<String>) -> (r: bool)
    ensures
        r == tag_strict_prefix(path.deep_view(), prefix.deep_view()),
{
    proof {
        assert(path.deep_view().len() == path@.len());
        assert(prefix.deep_view().len() == prefix@.len());
    }
    if prefix.len() >= path.len() {
        return false;
    }
    let mut i: usize = 0;
    while i < prefix.len()
        invariant
            i <= prefix.len(),
            prefix.len() < path.len(),
            path.deep_view().len() == path@.len(),
            prefix.deep_view().len() == prefix@.len(),
            forall|j: int| 0 <= j < i ==> path.deep_view()[j] == prefix.deep_view()[j],
        decreases prefix.len() - i,
    {
        proof {
            assert(path.deep_view()[i as int] == path@[i as int]@);
            assert(prefix.deep_view()[i as int] == prefix@[i as int]@);
        }
        if !path[i].eq(&prefix[i]) {
            return false;
        }
        i = i + 1;
    }
    proof {
        assert(path.deep_view().take(prefix.deep_view().len() as int) =~= prefix.deep_view());
    }
    true
}

} // verus!

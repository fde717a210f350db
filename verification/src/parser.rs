//! The merge engine's replacement plan and its application.
//!
//! A plan is an ordered list of (destination range, source range) pairs: for
//! each resolved fragment declaration, the span of the destination buffer to
//! replace and the span of the fragment holding the new text. The plan is
//! applied against one mutable byte buffer, one pair at a time, highest
//! destination offset first, so that an already-applied replacement never
//! shifts the offsets still needed by a later one.

use vstd::prelude::*;

use crate::group::{GroupTag, Range, spec_max_range, tag_path_eq, tag_strict_prefix};
use crate::langs::rust::{Tagger, spec_parse_range_leaf, spec_trim_end};
use crate::ts;

verus! {

/// A destination span of one plan pair.
pub type RangeTarget = Range;

/// A source span of one plan pair.
pub type RangeInjection = Range;

/// An injection plan: (destination range, source range) pairs ordered by
/// descending destination start offset, consumed exactly once.
pub struct ReversedInjectionsRanges(pub Vec<(RangeTarget, RangeInjection)>);

/// One buffer with the bytes of `repl` put in place of `code[start..end]`.
pub open spec fn splice_spec(code: Seq<u8>, start: int, end: int, repl: Seq<u8>) -> Seq<u8> {
    code.take(start) + repl + code.skip(end)
}

/// The buffer after one plan pair. A destination start at the sentinel means
/// "append at the end"; a destination end at the sentinel means "replace from
/// the start offset to the end of the buffer". A pair whose source range does
/// not fit the fragment, or whose destination range does not fit the buffer,
/// is rejected: the buffer stays as it is.
pub open spec fn apply_pair_spec(code: Seq<u8>, dest: Range, src: Range, inj: Seq<u8>) -> Seq<
    u8,
> {
    if !(src.start_byte <= src.end_byte && src.end_byte <= inj.len()) {
        code
    } else {
        let repl = inj.subrange(src.start_byte as int, src.end_byte as int);
        if dest.start_byte == usize::MAX {
            code + repl
        } else if dest.end_byte == usize::MAX {
            if dest.start_byte <= code.len() {
                splice_spec(code, dest.start_byte as int, code.len() as int, repl)
            } else {
                code
            }
        } else {
            if dest.start_byte <= dest.end_byte && dest.end_byte <= code.len() {
                splice_spec(code, dest.start_byte as int, dest.end_byte as int, repl)
            } else {
                code
            }
        }
    }
}

/// The buffer after the plan pairs from index `k` on, first to last.
pub open spec fn apply_plan_from(
    code: Seq<u8>,
    plan: Seq<(Range, Range)>,
    inj: Seq<u8>,
    k: int,
) -> Seq<u8>
    decreases plan.len() - k,
{
    if k < 0 || k >= plan.len() {
        code
    } else {
        apply_plan_from(apply_pair_spec(code, plan[k].0, plan[k].1, inj), plan, inj, k + 1)
    }
}

/// The buffer after a whole plan, first pair to last.
pub open spec fn apply_plan_spec(code: Seq<u8>, plan: Seq<(Range, Range)>, inj: Seq<u8>) -> Seq<
    u8,
> {
    apply_plan_from(code, plan, inj, 0)
}

/// A well-formed concrete plan pair: the destination range is an ordinary
/// span (no sentinel), and the source range fits the fragment.
pub open spec fn pair_wf(p: (Range, Range), inj_len: int) -> bool {
    &&& p.0.start_byte <= p.0.end_byte
    &&& p.0.end_byte < usize::MAX
    &&& p.1.start_byte <= p.1.end_byte
    &&& p.1.end_byte <= inj_len
}

/// Every pair of the plan is well formed.
pub open spec fn plan_wf(plan: Seq<(Range, Range)>, inj_len: int) -> bool {
    forall|i: int| 0 <= i < plan.len() ==> pair_wf(#[trigger] plan[i], inj_len)
}

/// The destination ranges come in descending order and do not overlap: each
/// later range ends at or before the start of every earlier one.
pub open spec fn plan_descending(plan: Seq<(Range, Range)>) -> bool {
    forall|i: int, j: int|
        0 <= i < j < plan.len() ==> (#[trigger] plan[j]).0.end_byte <= (#[trigger] plan[i]).0.start_byte
}

/// The buffer that a plan denotes when all pairs are taken simultaneously:
/// the highest pair replaces the tail of the buffer, and the rest of the plan
/// acts on the untouched prefix.
pub open spec fn simultaneous_spec(code: Seq<u8>, plan: Seq<(Range, Range)>, inj: Seq<u8>) -> Seq<
    u8,
>
    decreases plan.len(),
{
    if plan.len() == 0 {
        code
    } else {
        let d = plan[0].0;
        let s = plan[0].1;
        simultaneous_spec(code.take(d.start_byte as int), plan.skip(1), inj) + inj.subrange(
            s.start_byte as int,
            s.end_byte as int,
        ) + code.skip(d.end_byte as int)
    }
}

proof fn lemma_apply_plan_from_unfold(code: Seq<u8>, plan: Seq<(Range, Range)>, inj: Seq<u8>)
    requires
        plan.len() > 0,
    ensures
        apply_plan_spec(code, plan, inj) == apply_plan_spec(
            apply_pair_spec(code, plan[0].0, plan[0].1, inj),
            plan.skip(1),
            inj,
        ),
    decreases plan.len(),
{
    lemma_apply_plan_from_shift_general(
        apply_pair_spec(code, plan[0].0, plan[0].1, inj),
        plan,
        inj,
        1,
        0,
    );
}

proof fn lemma_apply_plan_from_shift_general(
    code: Seq<u8>,
    plan: Seq<(Range, Range)>,
    inj: Seq<u8>,
    k: int,
    k1: int,
)
    requires
        1 <= k <= plan.len(),
        k1 == k - 1,
    ensures
        apply_plan_from(code, plan, inj, k) == apply_plan_from(code, plan.skip(1), inj, k1),
    decreases plan.len() - k,
{
    if k >= plan.len() {
        assert(k1 >= plan.skip(1).len());
    } else {
        assert(plan.skip(1)[k1] == plan[k]);
        lemma_apply_plan_from_shift_general(
            apply_pair_spec(code, plan[k].0, plan[k].1, inj),
            plan,
            inj,
            k + 1,
            k1 + 1,
        );
    }
}

/// Framing: a plan whose destination ranges all lie inside the prefix `a`
/// leaves an appended suffix `b` untouched and in place.
proof fn lemma_apply_plan_frame(a: Seq<u8>, b: Seq<u8>, plan: Seq<(Range, Range)>, inj: Seq<u8>)
    requires
        plan_wf(plan, inj.len() as int),
        plan_descending(plan),
        plan.len() > 0 ==> plan[0].0.end_byte <= a.len(),
    ensures
        apply_plan_spec(a + b, plan, inj) == apply_plan_spec(a, plan, inj) + b,
    decreases plan.len(),
{
    if plan.len() == 0 {
        assert(apply_plan_spec(a + b, plan, inj) == a + b);
        assert(apply_plan_spec(a, plan, inj) == a);
    } else {
        let d = plan[0].0;
        let s = plan[0].1;
        let repl = inj.subrange(s.start_byte as int, s.end_byte as int);
        let a1 = apply_pair_spec(a, d, s, inj);
        assert(pair_wf(plan[0], inj.len() as int));
        assert((a + b).take(d.start_byte as int) =~= a.take(d.start_byte as int));
        assert((a + b).skip(d.end_byte as int) =~= a.skip(d.end_byte as int) + b);
        assert(apply_pair_spec(a + b, d, s, inj) =~= a1 + b);
        lemma_apply_plan_from_unfold(a + b, plan, inj);
        lemma_apply_plan_from_unfold(a, plan, inj);
        assert(a1.len() >= d.start_byte);
        assert forall|i: int, j: int| 0 <= i < j < plan.skip(1).len() implies (#[trigger] plan.skip(
            1,
        )[j]).0.end_byte <= (#[trigger] plan.skip(1)[i]).0.start_byte by {
            assert(plan.skip(1)[j] == plan[j + 1]);
            assert(plan.skip(1)[i] == plan[i + 1]);
        }
        assert forall|i: int| 0 <= i < plan.skip(1).len() implies pair_wf(
            #[trigger] plan.skip(1)[i],
            inj.len() as int,
        ) by {
            assert(plan.skip(1)[i] == plan[i + 1]);
        }
        if plan.skip(1).len() > 0 {
            assert(plan.skip(1)[0] == plan[1]);
            assert(plan[1].0.end_byte <= plan[0].0.start_byte);
            assert(plan.skip(1)[0].0.end_byte <= a1.len());
        }
        lemma_apply_plan_frame(a1, b, plan.skip(1), inj);
    }
}

/// The plan ordering invariant: a plan of pairwise non-overlapping concrete
/// destination ranges, ordered by descending destination start offset,
/// applied one pair at a time, computes the simultaneous replacement. In
/// particular every byte of the original buffer outside the destination
/// ranges is preserved unchanged, in its original order relative to the
/// other preserved bytes.
pub proof fn lemma_plan_ordering(code: Seq<u8>, plan: Seq<(Range, Range)>, inj: Seq<u8>)
    requires
        plan_wf(plan, inj.len() as int),
        plan_descending(plan),
        plan.len() > 0 ==> plan[0].0.end_byte <= code.len(),
    ensures
        apply_plan_spec(code, plan, inj) == simultaneous_spec(code, plan, inj),
    decreases plan.len(),
{
    if plan.len() == 0 {
    } else {
        let d = plan[0].0;
        let s = plan[0].1;
        let repl = inj.subrange(s.start_byte as int, s.end_byte as int);
        assert(pair_wf(plan[0], inj.len() as int));
        let t = code.take(d.start_byte as int);
        let tail = repl + code.skip(d.end_byte as int);
        let c1 = apply_pair_spec(code, d, s, inj);
        assert(c1 =~= t + tail);
        lemma_apply_plan_from_unfold(code, plan, inj);
        assert forall|i: int, j: int| 0 <= i < j < plan.skip(1).len() implies (#[trigger] plan.skip(
            1,
        )[j]).0.end_byte <= (#[trigger] plan.skip(1)[i]).0.start_byte by {
            assert(plan.skip(1)[j] == plan[j + 1]);
            assert(plan.skip(1)[i] == plan[i + 1]);
        }
        assert forall|i: int| 0 <= i < plan.skip(1).len() implies pair_wf(
            #[trigger] plan.skip(1)[i],
            inj.len() as int,
        ) by {
            assert(plan.skip(1)[i] == plan[i + 1]);
        }
        if plan.skip(1).len() > 0 {
            assert(plan.skip(1)[0] == plan[1]);
            assert(plan[1].0.end_byte <= plan[0].0.start_byte);
            assert(plan.skip(1)[0].0.end_byte <= t.len());
        }
        lemma_apply_plan_frame(t, tail, plan.skip(1), inj);
        lemma_plan_ordering(t, plan.skip(1), inj);
        assert(simultaneous_spec(code, plan, inj) == simultaneous_spec(t, plan.skip(1), inj) + repl
            + code.skip(d.end_byte as int));
        assert(apply_plan_spec(t, plan.skip(1), inj) + tail =~= (apply_plan_spec(t, plan.skip(1), inj)
            + repl) + code.skip(d.end_byte as int));
    }
}

/// Targeted replacement law: a plan of one concrete pair splices the
/// fragment bytes into exactly the destination span, and every byte of the
/// buffer before and after that span is preserved unchanged, in place.
pub proof fn lemma_targeted_replacement(code: Seq<u8>, dest: Range, src: Range, inj: Seq<u8>)
    requires
        pair_wf((dest, src), inj.len() as int),
        dest.end_byte <= code.len(),
    ensures
        apply_plan_spec(code, seq![(dest, src)], inj) == code.take(dest.start_byte as int)
            + inj.subrange(src.start_byte as int, src.end_byte as int) + code.skip(
            dest.end_byte as int,
        ),
{
    let plan = seq![(dest, src)];
    assert(plan[0] == (dest, src));
    assert forall|i: int| 0 <= i < plan.len() implies pair_wf(
        #[trigger] plan[i],
        inj.len() as int,
    ) by {
        assert(plan[i] == (dest, src));
    }
    lemma_plan_ordering(code, plan, inj);
    assert(simultaneous_spec(code.take(dest.start_byte as int), plan.skip(1), inj)
        =~= code.take(dest.start_byte as int));
}

/// Puts `inj[src_start..src_end]` in place of `code[start..end]`.
fn splice_bytes(code: &mut Vec<u8>, start: usize, end: usize, inj: &[u8], src_start: usize, src_end: usize)
    requires
        start <= end <= old(code).len(),
        src_start <= src_end <= inj.len(),
    ensures
        final(code)@ == splice_spec(
            old(code)@,
            start as int,
            end as int,
            inj@.subrange(src_start as int, src_end as int),
        ),
{
    let mut out: Vec<u8> = Vec::new();
    let mut i: usize = 0;
    while i < start
        invariant
            i <= start,
            start <= end <= code.len(),
            out@ =~= code@.take(i as int),
        decreases start - i,
    {
        out.push(code[i]);
        proof {
            assert(out@ =~= code@.take(i + 1));
        }
        i = i + 1;
    }
    let mut j: usize = src_start;
    while j < src_end
        invariant
            src_start <= j <= src_end <= inj.len(),
            start <= end <= code.len(),
            out@ =~= code@.take(start as int) + inj@.subrange(src_start as int, j as int),
        decreases src_end - j,
    {
        out.push(inj[j]);
        proof {
            assert(out@ =~= code@.take(start as int) + inj@.subrange(src_start as int, j + 1));
        }
        j = j + 1;
    }
    let mut k: usize = end;
    while k < code.len()
        invariant
            end <= k <= code.len(),
            start <= end,
            src_start <= src_end <= inj.len(),
            out@ =~= code@.take(start as int) + inj@.subrange(src_start as int, src_end as int)
                + code@.subrange(end as int, k as int),
        decreases code.len() - k,
    {
        let b = code[k];
        out.push(b);
        proof {
            assert(out@ =~= code@.take(start as int) + inj@.subrange(src_start as int, src_end as int)
                + code@.subrange(end as int, k + 1));
        }
        k = k + 1;
    }
    proof {
        assert(code@.subrange(end as int, code@.len() as int) =~= code@.skip(end as int));
    }
    *code = out;
}

impl ReversedInjectionsRanges {
    /// Applies every plan pair to `code`, first pair to last, splicing in the
    /// bytes of `injection` named by each source range. Pairs whose ranges do
    /// not fit are rejected, leaving the buffer unchanged, never panicking.
    pub fn apply_injections(self, code: &mut Vec<u8>, injection: &[u8])
        ensures
            final(code)@ == apply_plan_spec(old(code)@, self.0@, injection@),
    {
        let plan = self.0;
        let mut idx: usize = 0;
        while idx < plan.len()
            invariant
                idx <= plan.len(),
                apply_plan_from(code@, plan@, injection@, idx as int) == apply_plan_spec(
                    old(code)@,
                    plan@,
                    injection@,
                ),
            decreases plan.len() - idx,
        {
            let (dest, src) = plan[idx];
            let ghost before = code@;
            if src.start_byte <= src.end_byte && src.end_byte <= injection.len() {
                if dest.start_byte == usize::MAX {
                    let len = code.len();
                    splice_bytes(code, len, len, injection, src.start_byte, src.end_byte);
                    proof {
                        let repl = injection@.subrange(src.start_byte as int, src.end_byte as int);
                        assert(before.take(len as int) =~= before);
                        assert(before.skip(len as int) =~= Seq::<u8>::empty());
                        assert(code@ =~= before + repl);
                    }
                } else if dest.end_byte == usize::MAX {
                    if dest.start_byte <= code.len() {
                        let len = code.len();
                        splice_bytes(code, dest.start_byte, len, injection, src.start_byte, src.end_byte);
                    }
                } else {
                    if dest.start_byte <= dest.end_byte && dest.end_byte <= code.len() {
                        splice_bytes(code, dest.start_byte, dest.end_byte, injection, src.start_byte, src.end_byte);
                    }
                }
            }
            proof {
                assert(code@ == apply_pair_spec(before, dest, src, injection@));
            }
            idx = idx + 1;
        }
    }
}

/// The destination span that the branch scan of the placement resolver
/// yields: the interior of the first branch whose path is a strict prefix of
/// `path`, or nothing when no branch encloses the path.
pub open spec fn spec_resolve_branches(branches: Seq<GroupTag>, path: Seq<Seq<char>>) -> Option<
    Range,
>
    decreases branches.len(),
{
    if branches.len() == 0 {
        None
    } else if tag_strict_prefix(path, branches[0].path()) {
        Some(spec_trim_end(branches[0].range))
    } else {
        spec_resolve_branches(branches.skip(1), path)
    }
}

/// The destination span of one fragment declaration. A found declaration of
/// the same path is replaced wholesale at its leaf span; otherwise the first
/// enclosing branch takes the new text just before its closing delimiter;
/// otherwise the sentinel appends at the end of the buffer.
pub open spec fn spec_resolve_placement(
    found: Option<GroupTag>,
    branches: Seq<GroupTag>,
    target_path: Seq<Seq<char>>,
) -> Range {
    match found {
        Some(leaf) => spec_parse_range_leaf(leaf.tagger, leaf.range),
        None => match spec_resolve_branches(branches, target_path) {
            Some(r) => r,
            None => spec_max_range(),
        },
    }
}

/// Resolves the destination span of one fragment declaration from the
/// outcome of the destination lookup and the destination's branch tags.
pub fn resolve_placement(found: Option<GroupTag>, branches: &Vec<GroupTag>, inject_tag: &GroupTag) -> (r:
    Range)
    ensures
        r == spec_resolve_placement(found, branches@, inject_tag.path()),
{
    match found {
        Some(leaf) => Tagger::parse_range_leaf(leaf),
        None => {
            let mut i: usize = 0;
            proof {
                assert(branches@.skip(0) =~= branches@);
            }
            while i < branches.len()
                invariant
                    i <= branches@.len(),
                    found is None,
                    spec_resolve_branches(branches@, inject_tag.path()) == spec_resolve_branches(
                        branches@.skip(i as int),
                        inject_tag.path(),
                    ),
                decreases branches@.len() - i,
            {
                proof {
                    assert(branches@.skip(i as int)[0] == branches@[i as int]);
                    assert(branches@.skip(i as int).skip(1) =~= branches@.skip(i + 1));
                }
                if crate::group::tag_is_strict_prefix(&inject_tag.tag, &branches[i].tag) {
                    proof {
                        assert(spec_resolve_branches(branches@.skip(i as int), inject_tag.path())
                            == Some(spec_trim_end(branches@[i as int].range)));
                    }
                    return Tagger::parse_range_branch(branches[i].clone_tag());
                }
                i = i + 1;
            }
            Tagger::parse_range_no_match(inject_tag)
        },
    }
}

/// Insertion anchor law: when no declaration of the destination has the
/// fragment declaration's path, and the branch at index `i` is the first
/// whose path is a strict prefix of it, the resolved destination is that
/// branch's interior, immediately before its closing delimiter.
pub proof fn lemma_insertion_anchor(branches: Seq<GroupTag>, target_path: Seq<Seq<char>>, i: int)
    requires
        0 <= i < branches.len(),
        tag_strict_prefix(target_path, branches[i].path()),
        forall|j: int|
            0 <= j < i ==> !tag_strict_prefix(target_path, (#[trigger] branches[j]).path()),
    ensures
        spec_resolve_placement(None, branches, target_path) == spec_trim_end(branches[i].range),
    decreases i,
{
    if i == 0 {
    } else {
        assert(branches.skip(1)[i - 1] == branches[i]);
        assert forall|j: int| 0 <= j < i - 1 implies !tag_strict_prefix(
            target_path,
            (#[trigger] branches.skip(1)[j]).path(),
        ) by {
            assert(branches.skip(1)[j] == branches[j + 1]);
        }
        lemma_insertion_anchor(branches.skip(1), target_path, i - 1);
    }
}

/// Fallback law: when no declaration of the destination has the fragment
/// declaration's path and no branch's path is a strict prefix of it, the
/// resolved destination is the sentinel: the fragment text is appended at
/// the end of the buffer.
pub proof fn lemma_fallback_append(branches: Seq<GroupTag>, target_path: Seq<Seq<char>>)
    requires
        forall|j: int|
            0 <= j < branches.len() ==> !tag_strict_prefix(
                target_path,
                (#[trigger] branches[j]).path(),
            ),
    ensures
        spec_resolve_placement(None, branches, target_path) == spec_max_range(),
    decreases branches.len(),
{
    if branches.len() > 0 {
        assert forall|j: int| 0 <= j < branches.skip(1).len() implies !tag_strict_prefix(
            target_path,
            (#[trigger] branches.skip(1)[j]).path(),
        ) by {
            assert(branches.skip(1)[j] == branches[j + 1]);
        }
        lemma_fallback_append(branches.skip(1), target_path);
    }
}

/// Descending order of a plan's destination start offsets.
pub open spec fn plan_sorted_descending(plan: Seq<(Range, Range)>) -> bool {
    forall|i: int, j: int|
        0 <= i < j < plan.len() ==> (#[trigger] plan[j]).0.start_byte <= (#[trigger] plan[i]).0.start_byte
}

/// Orders a plan by descending destination start offset, keeping exactly the
/// given pairs.
pub fn sort_plan_descending(v: Vec<(Range, Range)>) -> (r: Vec<(Range, Range)>)
    ensures
        r@.to_multiset() == v@.to_multiset(),
        plan_sorted_descending(r@),
{
    broadcast use vstd::seq_lib::group_to_multiset_ensures;

    let mut work = v;
    let mut out: Vec<(Range, Range)> = Vec::new();
    proof {
        assert(out@.to_multiset().len() == 0);
        assert(out@.to_multiset().add(work@.to_multiset()) =~= work@.to_multiset());
    }
    while work.len() > 0
        invariant
            out@.to_multiset().add(work@.to_multiset()) == v@.to_multiset(),
            plan_sorted_descending(out@),
            forall|a: int, b: int|
                0 <= a < out@.len() && 0 <= b < work@.len() ==> (#[trigger] work@[b]).0.start_byte
                    <= (#[trigger] out@[a]).0.start_byte,
        decreases work.len(),
    {
        let mut best: usize = 0;
        let mut m: usize = 1;
        while m < work.len()
            invariant
                work@.len() > 0,
                best < m <= work@.len(),
                forall|k: int|
                    0 <= k < m ==> (#[trigger] work@[k]).0.start_byte
                        <= work@[best as int].0.start_byte,
            decreases work.len() - m,
        {
            if work[m].0.start_byte > work[best].0.start_byte {
                best = m;
            }
            m = m + 1;
        }
        let ghost work_prev = work@;
        let ghost out_prev = out@;
        let x = work.remove(best);
        out.push(x);
        proof {
            broadcast use vstd::seq_lib::group_to_multiset_ensures;

            assert(work_prev.contains(work_prev[best as int]));
            assert(work@ == work_prev.remove(best as int));
            assert(work_prev.remove(best as int).to_multiset() =~= work_prev.to_multiset().remove(
                work_prev[best as int],
            ));
            assert(out@ == out_prev.push(x));
            assert(out_prev.push(x).to_multiset() =~= out_prev.to_multiset().insert(x));
            assert(work@.to_multiset() =~= work_prev.to_multiset().remove(x));
            assert(out@.to_multiset() =~= out_prev.to_multiset().insert(x));
            assert(out@.to_multiset().add(work@.to_multiset()) =~= out_prev.to_multiset().add(
                work_prev.to_multiset(),
            ));
            assert forall|a: int, b: int|
                0 <= a < out@.len() && 0 <= b < work@.len() implies (#[trigger] work@[b]).0.start_byte
                <= (#[trigger] out@[a]).0.start_byte by {
                assert(work@[b] == if b < best { work_prev[b] } else { work_prev[b + 1] });
                if a < out@.len() - 1 {
                    assert(out@[a] == out_prev[a]);
                } else {
                    assert(out@[a] == x);
                }
            }
        }
    }
    proof {
        assert(work@.to_multiset().len() == 0);
        assert(out@.to_multiset().add(work@.to_multiset()) =~= out@.to_multiset());
    }
    out
}

/// One immutable parse of one buffer: the engine's indexer. It lists the
/// buffer's tagged declarations, finds one by exact path, and resolves where
/// an externally supplied declaration belongs in this buffer.
pub struct CodeParser {
    pub code: Vec<u8>,
    pub tree: tree_sitter::Tree,
}

/// The first tag of `tags` whose path equals `r`'s, with everything before
/// it mismatching; or, for `None`, no tag of `tags` matching at all.
pub open spec fn spec_first_match(tags: Seq<GroupTag>, target: GroupTag, r: Option<GroupTag>) -> bool {
    match r {
        Some(g) => exists|i: int|
            0 <= i < tags.len() && #[trigger] tags[i].path() == g.path() && tags[i].range
                == g.range && tags[i].tagger == g.tagger && tag_path_eq(g.path(), target.path())
                && (forall|j: int|
                0 <= j < i ==> !tag_path_eq((#[trigger] tags[j]).path(), target.path())),
        None => forall|j: int|
            0 <= j < tags.len() ==> !tag_path_eq((#[trigger] tags[j]).path(), target.path()),
    }
}

/// A tag list split in two: leaf-kind tags with non-empty paths first, then
/// branch-kind tags.
pub open spec fn spec_leaf_branch_split(tags: Seq<GroupTag>, split: int) -> bool {
    &&& 0 <= split <= tags.len()
    &&& forall|i: int|
        0 <= i < split ==> (#[trigger] tags[i]).tagger.spec_is_leaf() && tags[i].tag@.len() >= 1
    &&& forall|i: int| split <= i < tags.len() ==> !(#[trigger] tags[i]).tagger.spec_is_leaf()
}

/// The merge gate: both buffers parse under the grammar, the error query is
/// valid, and it matches nothing in either buffer.
pub open spec fn spec_inject_accepted(dest: Seq<u8>, fragment: Seq<u8>) -> bool {
    &&& ts::spec_rust_parses(dest)
    &&& ts::spec_rust_query_ok(crate::langs::rust::QUERY_ERROR@)
    &&& ts::spec_query_match_count(crate::langs::rust::QUERY_ERROR@, dest) == 0
    &&& ts::spec_rust_parses(fragment)
    &&& ts::spec_query_match_count(crate::langs::rust::QUERY_ERROR@, fragment) == 0
}

/// The index of the first tag of `tags` whose path equals the target's.
pub fn find_tag_in(tags: &Vec<GroupTag>, target: &GroupTag) -> (r: Option<usize>)
    ensures
        match r {
            Some(i) => i < tags@.len() && tag_path_eq(tags@[i as int].path(), target.path()) && (
            forall|j: int|
                0 <= j < i ==> !tag_path_eq((#[trigger] tags@[j]).path(), target.path())),
            None => forall|j: int|
                0 <= j < tags@.len() ==> !tag_path_eq((#[trigger] tags@[j]).path(), target.path()),
        },
{
    let mut i: usize = 0;
    while i < tags.len()
        invariant
            i <= tags@.len(),
            forall|j: int| 0 <= j < i ==> !tag_path_eq((#[trigger] tags@[j]).path(), target.path()),
        decreases tags@.len() - i,
    {
        if crate::group::tag_eq(&tags[i].tag, &target.tag) {
            return Some(i);
        }
        i = i + 1;
    }
    None
}

impl CodeParser {
    /// Parses one buffer with the Rust grammar, keeping the bytes: exactly
    /// the buffers the grammar parses come back `Some`.
    pub fn new(code: &[u8]) -> (r: Option<CodeParser>)
        ensures
            r is Some <==> ts::spec_rust_parses(code@),
            match r {
                Some(p) => p.code@ == code@,
                None => true,
            },
    {
        match ts::rust_parse(code) {
            Some(tree) => Some(CodeParser { code: vstd::slice::slice_to_vec(code), tree }),
            None => None,
        }
    }

    /// Runs one kind's query over the whole buffer and extracts a tag per
    /// match, in query match order: the buffer's declaration order. `Some`
    /// exactly when the kind's query builds against the loaded grammar.
    pub fn list_tags(&self, tagger: &Tagger) -> (r: Option<Vec<GroupTag>>)
        ensures
            r is Some <==> ts::spec_rust_query_ok(tagger.spec_query_str()),
            match r {
                Some(tags) => forall|i: int|
                    0 <= i < tags@.len() ==> (#[trigger] tags@[i]).tagger == *tagger && (
                    tagger.spec_is_leaf() ==> tags@[i].tag@.len() >= 1),
                None => true,
            },
    {
        let query = match ts::rust_query_new(tagger.get_query_str()) {
            Some(q) => q,
            None => {
                return None;
            },
        };
        let root = ts::tree_root_node(&self.tree);
        let matches = ts::query_run(&query, root, self.code.as_slice());
        let mut tags: Vec<GroupTag> = Vec::new();
        let mut i: usize = 0;
        while i < matches.len()
            invariant
                forall|k: int|
                    0 <= k < tags@.len() ==> (#[trigger] tags@[k]).tagger == *tagger && (
                    tagger.spec_is_leaf() ==> tags@[k].tag@.len() >= 1),
            decreases matches.len() - i,
        {
            if let Some(tag) = tagger.tag_from_match(&matches[i], self.code.as_slice()) {
                tags.push(tag);
            }
            i = i + 1;
        }
        Some(tags)
    }

    /// All leaf tags of the buffer, kind by kind, each kind's matches in
    /// buffer order.
    pub fn list_leafs_tags(&self) -> (r: Vec<GroupTag>)
        ensures
            forall|i: int|
                0 <= i < r@.len() ==> (#[trigger] r@[i]).tagger.spec_is_leaf() && r@[i].tag@.len()
                    >= 1,
    {
        let kinds = Tagger::leafs();
        let mut out: Vec<GroupTag> = Vec::new();
        let mut i: usize = 0;
        while i < kinds.len()
            invariant
                forall|k: int|
                    0 <= k < out@.len() ==> (#[trigger] out@[k]).tagger.spec_is_leaf()
                        && out@[k].tag@.len() >= 1,
                forall|k: int| 0 <= k < kinds@.len() ==> (#[trigger] kinds@[k]).spec_is_leaf(),
            decreases kinds.len() - i,
        {
            if let Some(tags) = self.list_tags(&kinds[i]) {
                let mut j: usize = 0;
                while j < tags.len()
                    invariant
                        forall|k: int|
                            0 <= k < out@.len() ==> (#[trigger] out@[k]).tagger.spec_is_leaf()
                                && out@[k].tag@.len() >= 1,
                        kinds@[i as int].spec_is_leaf(),
                        forall|k: int|
                            0 <= k < tags@.len() ==> (#[trigger] tags@[k]).tagger == kinds@[i as int]
                                && (kinds@[i as int].spec_is_leaf() ==> tags@[k].tag@.len() >= 1),
                    decreases tags.len() - j,
                {
                    out.push(tags[j].clone_tag());
                    j = j + 1;
                }
            }
            i = i + 1;
        }
        out
    }

    /// All branch tags of the buffer.
    pub fn list_branches_tags(&self) -> (r: Vec<GroupTag>)
        ensures
            forall|i: int| 0 <= i < r@.len() ==> !(#[trigger] r@[i]).tagger.spec_is_leaf(),
    {
        let kinds = Tagger::branches();
        let mut out: Vec<GroupTag> = Vec::new();
        let mut i: usize = 0;
        while i < kinds.len()
            invariant
                forall|k: int| 0 <= k < out@.len() ==> !(#[trigger] out@[k]).tagger.spec_is_leaf(),
                forall|k: int| 0 <= k < kinds@.len() ==> !(#[trigger] kinds@[k]).spec_is_leaf(),
            decreases kinds.len() - i,
        {
            if let Some(tags) = self.list_tags(&kinds[i]) {
                let mut j: usize = 0;
                while j < tags.len()
                    invariant
                        forall|k: int|
                            0 <= k < out@.len() ==> !(#[trigger] out@[k]).tagger.spec_is_leaf(),
                        !kinds@[i as int].spec_is_leaf(),
                        forall|k: int|
                            0 <= k < tags@.len() ==> (#[trigger] tags@[k]).tagger == kinds@[i as int],
                    decreases tags.len() - j,
                {
                    out.push(tags[j].clone_tag());
                    j = j + 1;
                }
            }
            i = i + 1;
        }
        out
    }

    /// Every tag of the buffer: the leaf tags first, then the branch tags.
    pub fn list_all_tags(&self) -> (r: Vec<GroupTag>)
        ensures
            exists|split: int| #[trigger] spec_leaf_branch_split(r@, split),
    {
        let mut out = self.list_leafs_tags();
        let ghost split = out@.len() as int;
        let mut branches = self.list_branches_tags();
        let ghost branches_view = branches@;
        out.append(&mut branches);
        proof {
            assert forall|i: int| 0 <= i < split implies (#[trigger] out@[i]).tagger.spec_is_leaf()
                && out@[i].tag@.len() >= 1 by {}
            assert forall|i: int| split <= i < out@.len() implies !(
            #[trigger] out@[i]).tagger.spec_is_leaf() by {
                assert(out@[i] == branches_view[i - split]);
            }
            assert(spec_leaf_branch_split(out@, split));
        }
        out
    }

    /// Re-runs the target's kind query and returns the first match whose
    /// extracted path equals the target's path exactly. The scan itself is
    /// `find_tag_in`; some extracted tag list of the target's kind witnesses
    /// the first-match choice, and `None` means no tag of that list matched
    /// (also when the kind's query cannot be built).
    pub fn find_tag(&self, target: &GroupTag) -> (r: Option<GroupTag>)
        ensures
            match r {
                Some(g) => g.tagger == target.tagger && tag_path_eq(g.path(), target.path()),
                None => true,
            },
            exists|tags: Seq<GroupTag>|
                (forall|k: int| 0 <= k < tags.len() ==> (#[trigger] tags[k]).tagger == target.tagger)
                    && #[trigger] spec_first_match(tags, *target, r),
    {
        let tags = match self.list_tags(&target.tagger) {
            Some(tags) => tags,
            None => {
                proof {
                    let empty = Seq::<GroupTag>::empty();
                    assert(spec_first_match(empty, *target, None::<GroupTag>));
                }
                return None;
            },
        };
        match find_tag_in(&tags, target) {
            Some(i) => {
                let g = tags[i].clone_tag();
                proof {
                    assert(tags@[i as int].path() == g.path());
                    assert(spec_first_match(tags@, *target, Some(g)));
                }
                Some(g)
            },
            None => {
                proof {
                    assert(spec_first_match(tags@, *target, None::<GroupTag>));
                }
                None
            },
        }
    }

    /// The placement resolver: the span of the destination buffer where the
    /// given declaration belongs. A declaration of the same path is replaced
    /// at its leaf span; otherwise the first branch whose path is a strict
    /// prefix of the declaration's path takes it just before its closing
    /// delimiter; otherwise the sentinel appends at the end of the buffer.
    /// The decision is `resolve_placement`, applied to a lookup outcome of
    /// the declaration's path and kind and to a list of branch tags.
    pub fn range_where_to_inject(&self, inject_tag: &GroupTag) -> (r: Range)
        ensures
            exists|found: Option<GroupTag>, branches: Seq<GroupTag>|
                #[trigger] spec_resolve_placement(found, branches, inject_tag.path()) == r && (match
                found {
                    Some(g) => g.tagger == inject_tag.tagger && tag_path_eq(
                        g.path(),
                        inject_tag.path(),
                    ),
                    None => true,
                }) && (forall|k: int|
                    0 <= k < branches.len() ==> !(#[trigger] branches[k]).tagger.spec_is_leaf()),
    {
        let found = self.find_tag(inject_tag);
        let ghost gfound = found;
        let branches = self.list_branches_tags();
        let ghost gbranches = branches@;
        let r = resolve_placement(found, &branches, inject_tag);
        proof {
            assert(spec_resolve_placement(gfound, gbranches, inject_tag.path()) == r);
        }
        r
    }

    /// How many matches the error-detection query yields on this buffer's
    /// bytes: parse errors plus missing tokens. `Some` exactly when the
    /// bytes parse and the error query builds; the count is a function of
    /// the bytes, so the stored tree need not be consulted.
    pub fn count_errors(&self) -> (r: Option<usize>)
        ensures
            r is Some <==> (ts::spec_rust_parses(self.code@) && ts::spec_rust_query_ok(
                crate::langs::rust::QUERY_ERROR@,
            )),
            match r {
                Some(n) => n as int == ts::spec_query_match_count(
                    crate::langs::rust::QUERY_ERROR@,
                    self.code@,
                ),
                None => true,
            },
    {
        ts::rust_query_match_count(crate::langs::rust::QUERY_ERROR, self.code.as_slice())
    }

    /// The raw plan of a fragment's leaf tags against this buffer: one pair
    /// per leaf, in leaf order, the leaf's resolved destination span paired
    /// with the leaf's own span inside the fragment.
    pub fn pair_leaves(&self, leafs: &Vec<GroupTag>) -> (r: Vec<(Range, Range)>)
        ensures
            r@.len() == leafs@.len(),
            forall|i: int| 0 <= i < r@.len() ==> (#[trigger] r@[i]).1 == leafs@[i].range,
    {
        let mut out: Vec<(Range, Range)> = Vec::new();
        let mut i: usize = 0;
        while i < leafs.len()
            invariant
                i <= leafs@.len(),
                out@.len() == i,
                forall|k: int| 0 <= k < i ==> (#[trigger] out@[k]).1 == leafs@[k].range,
            decreases leafs@.len() - i,
        {
            let dest = self.range_where_to_inject(&leafs[i]);
            out.push((dest, leafs[i].range));
            i = i + 1;
        }
        out
    }

    /// Builds the injection plan merging `inject` into this buffer: exactly
    /// when both buffers parse and the error query matches nothing in
    /// either, the fragment's leaf tags are paired (`pair_leaves`) and the
    /// pairs ordered by descending destination start offset
    /// (`sort_plan_descending`, keeping exactly those pairs).
    pub fn inject(&self, inject: &[u8]) -> (r: Option<ReversedInjectionsRanges>)
        ensures
            r is Some <==> spec_inject_accepted(self.code@, inject@),
            match r {
                Some(plan) => plan_sorted_descending(plan.0@),
                None => true,
            },
    {
        match self.count_errors() {
            Some(0) => {},
            _ => {
                return None;
            },
        }
        let inject_parser = match CodeParser::new(inject) {
            Some(p) => p,
            None => {
                return None;
            },
        };
        match inject_parser.count_errors() {
            Some(0) => {},
            _ => {
                return None;
            },
        }
        let leafs = inject_parser.list_leafs_tags();
        let pairs = self.pair_leaves(&leafs);
        Some(ReversedInjectionsRanges(sort_plan_descending(pairs)))
    }

    /// Merges `injection` into a copy of this buffer and hands the copy
    /// back: the plan of `inject`, applied highest destination first. The
    /// copy is the application of some descending plan to the true buffers;
    /// callers that need the plan itself take the two steps (`inject`, then
    /// `apply_injections`) separately.
    pub fn test_inject(&self, injection: &[u8]) -> (r: Option<Vec<u8>>)
        ensures
            r is Some <==> spec_inject_accepted(self.code@, injection@),
            match r {
                Some(out) => exists|plan: Seq<(Range, Range)>|
                    #[trigger] apply_plan_spec(self.code@, plan, injection@) == out@
                        && plan_sorted_descending(plan),
                None => true,
            },
    {
        let mut modification: Vec<u8> = vstd::slice::slice_to_vec(self.code.as_slice());
        let injections = match self.inject(injection) {
            Some(p) => p,
            None => {
                return None;
            },
        };
        let ghost plan_view = injections.0@;
        injections.apply_injections(&mut modification, injection);
        proof {
            assert(apply_plan_spec(self.code@, plan_view, injection@) == modification@);
        }
        Some(modification)
    }
}

} // verus!

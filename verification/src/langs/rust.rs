//! The Rust grammar adapter: the closed set of declaration kinds, one syntax
//! query per kind, the partition of kinds into mergeable leaves and
//! scope-container branches, and the error-detection query.

use vstd::prelude::*;

use crate::group::{GroupTag, Range, spec_union};
use crate::text::{dash_colons, spec_dash_colons, spec_strip_spaces, str_eq, strip_spaces};
use crate::ts;
use crate::ts::{FieldText, NodeFacts};

verus! {

/// The query flagging any parse error or missing token anywhere in a tree.
pub const QUERY_ERROR: &'static str = r#"[(ERROR) (MISSING)] @error"#;

/// A named routine, with any leading doc comments and attributes captured so
/// they belong to the replaceable span.
pub const QUERY_FONCTION_BLOCK: &'static str = r#"([(block_comment(doc_comment)) (line_comment(doc_comment)) (attribute_item)]* . (function_item name: (identifier) @function))"#;

/// A record type, with its leading trivia.
pub const QUERY_STRUCTURE_BLOCK: &'static str = r#"([(block_comment(doc_comment)) (line_comment(doc_comment)) (attribute_item)]* . (struct_item name: (type_identifier) @structure))"#;

/// An enumerated type, with its leading trivia.
pub const QUERY_ENUMERATION_BLOCK: &'static str = r#"([(block_comment(doc_comment)) (line_comment(doc_comment)) (attribute_item)]* . (enum_item name: (type_identifier) @enumeration))"#;

/// A contract definition, with its leading trivia.
pub const QUERY_TRAIT_BLOCK: &'static str = r#"([(block_comment(doc_comment)) (line_comment(doc_comment)) (attribute_item)]* . (trait_item name: (type_identifier) @trait))"#;

/// A type alias.
pub const QUERY_TYPE: &'static str = r#"(type_item name: (type_identifier) @type)"#;

/// A static binding.
pub const QUERY_STATIC: &'static str = r#"(static_item name: (identifier) @static)"#;

/// A constant.
pub const QUERY_CONSTANT: &'static str = r#"(const_item name: (identifier) @constante)"#;

/// A run of contiguous module declarations without bodies, matched as one
/// logical unit.
pub const QUERY_MOD_IMPORT_SUCCESSIVE: &'static str = r#"((mod_item !body name: (_)) @module_import)+"#;

/// A run of contiguous import statements, matched as one logical unit.
pub const QUERY_USE_SUCCESSIVE: &'static str = r#"((use_declaration argument: (_) @use))+"#;

/// A scope container with a declaration-list body: a named module block or a
/// conformance block.
pub const QUERY_DECLARATION_LIST: &'static str = r#"(_ [name: (_) type: (_)] @branchs body: (declaration_list))"#;

/// The Rust grammar, bound to the engine.
pub struct Rust;

impl Rust {
    /// The grammar as a tree-sitter language.
    pub fn language() -> tree_sitter::Language {
        crate::ts::rust_language()
    }

    /// A parsed buffer under this grammar.
    pub fn new_parser(code: &[u8]) -> (r: Option<crate::parser::CodeParser>)
        ensures
            match r {
                Some(p) => p.code@ == code@,
                None => true,
            },
    {
        crate::parser::CodeParser::new(code)
    }
}

/// One declaration kind of the Rust grammar. Leaf kinds are self-contained,
/// independently mergeable declarations; the one branch kind is a scope
/// container usable only as an insertion anchor.
#[derive(Debug, Clone, Copy, PartialEq, Eq, Structural)]
pub enum Tagger {
    DeclarationList,
    ConstItem,
    EnumItem,
    FunctionItem,
    ModItemLeaf,
    StaticItem,
    StructItem,
    TraitItem,
    TypeItem,
    UseDeclaration,
}

impl Tagger {
    /// Whether this kind is a mergeable leaf; the only other kind is the
    /// branch kind `DeclarationList`.
    pub open spec fn spec_is_leaf(self) -> bool {
        self != Tagger::DeclarationList
    }

    /// The two successive-run kinds, which have no single name of their own.
    pub open spec fn spec_is_group(self) -> bool {
        self == Tagger::ModItemLeaf || self == Tagger::UseDeclaration
    }

    /// The syntax query string of each kind.
    pub open spec fn spec_query_str(self) -> Seq<char> {
        match self {
            Tagger::DeclarationList => QUERY_DECLARATION_LIST@,
            Tagger::ConstItem => QUERY_CONSTANT@,
            Tagger::EnumItem => QUERY_ENUMERATION_BLOCK@,
            Tagger::FunctionItem => QUERY_FONCTION_BLOCK@,
            Tagger::ModItemLeaf => QUERY_MOD_IMPORT_SUCCESSIVE@,
            Tagger::StaticItem => QUERY_STATIC@,
            Tagger::StructItem => QUERY_STRUCTURE_BLOCK@,
            Tagger::TraitItem => QUERY_TRAIT_BLOCK@,
            Tagger::TypeItem => QUERY_TYPE@,
            Tagger::UseDeclaration => QUERY_USE_SUCCESSIVE@,
        }
    }

    /// The syntax query string of this kind.
    pub fn get_query_str(&self) -> (r: &'static str)
        ensures
            r@ == self.spec_query_str(),
    {
        match self {
            Tagger::DeclarationList => QUERY_DECLARATION_LIST,
            Tagger::ConstItem => QUERY_CONSTANT,
            Tagger::EnumItem => QUERY_ENUMERATION_BLOCK,
            Tagger::FunctionItem => QUERY_FONCTION_BLOCK,
            Tagger::ModItemLeaf => QUERY_MOD_IMPORT_SUCCESSIVE,
            Tagger::StaticItem => QUERY_STATIC,
            Tagger::StructItem => QUERY_STRUCTURE_BLOCK,
            Tagger::TraitItem => QUERY_TRAIT_BLOCK,
            Tagger::TypeItem => QUERY_TYPE,
            Tagger::UseDeclaration => QUERY_USE_SUCCESSIVE,
        }
    }

    /// The leaf kinds, in the order their queries run during a merge.
    pub open spec fn spec_leaf_kinds() -> Seq<Tagger> {
        seq![
            Tagger::ConstItem,
            Tagger::EnumItem,
            Tagger::FunctionItem,
            Tagger::ModItemLeaf,
            Tagger::StaticItem,
            Tagger::StructItem,
            Tagger::TraitItem,
            Tagger::TypeItem,
            Tagger::UseDeclaration,
        ]
    }

    /// The branch kinds.
    pub open spec fn spec_branch_kinds() -> Seq<Tagger> {
        seq![Tagger::DeclarationList]
    }

    /// The leaf kinds, in the order their queries run during a merge.
    pub fn leafs() -> (r: Vec<Tagger>)
        ensures
            r@ == Tagger::spec_leaf_kinds(),
            forall|i: int| 0 <= i < r@.len() ==> (#[trigger] r@[i]).spec_is_leaf(),
    {
        let mut v: Vec<Tagger> = Vec::new();
        v.push(Tagger::ConstItem);
        v.push(Tagger::EnumItem);
        v.push(Tagger::FunctionItem);
        v.push(Tagger::ModItemLeaf);
        v.push(Tagger::StaticItem);
        v.push(Tagger::StructItem);
        v.push(Tagger::TraitItem);
        v.push(Tagger::TypeItem);
        v.push(Tagger::UseDeclaration);
        proof {
            assert(v@ =~= Tagger::spec_leaf_kinds());
        }
        v
    }

    /// The branch kinds.
    pub fn branches() -> (r: Vec<Tagger>)
        ensures
            r@ == Tagger::spec_branch_kinds(),
            forall|i: int| 0 <= i < r@.len() ==> !(#[trigger] r@[i]).spec_is_leaf(),
    {
        let mut v: Vec<Tagger> = Vec::new();
        v.push(Tagger::DeclarationList);
        proof {
            assert(v@ =~= Tagger::spec_branch_kinds());
        }
        v
    }

    /// Whether this kind is a mergeable leaf, decided executably.
    pub fn is_leaf(&self) -> (r: bool)
        ensures
            r == self.spec_is_leaf(),
    {
        !matches!(self, Tagger::DeclarationList)
    }
}

/// The partition invariant of the kind tables: the leaf list holds exactly
/// the leaf kinds, the branch list exactly the branch kinds, and no kind
/// stands in both.
pub proof fn lemma_kind_partition()
    ensures
        forall|t: Tagger| Tagger::spec_leaf_kinds().contains(t) <==> t.spec_is_leaf(),
        forall|t: Tagger| Tagger::spec_branch_kinds().contains(t) <==> !t.spec_is_leaf(),
        forall|t: Tagger|
            !(Tagger::spec_leaf_kinds().contains(t) && Tagger::spec_branch_kinds().contains(t)),
{
    assert forall|t: Tagger| Tagger::spec_leaf_kinds().contains(t) <==> t.spec_is_leaf() by {
        if t.spec_is_leaf() {
            match t {
                Tagger::ConstItem => assert(Tagger::spec_leaf_kinds()[0] == t),
                Tagger::EnumItem => assert(Tagger::spec_leaf_kinds()[1] == t),
                Tagger::FunctionItem => assert(Tagger::spec_leaf_kinds()[2] == t),
                Tagger::ModItemLeaf => assert(Tagger::spec_leaf_kinds()[3] == t),
                Tagger::StaticItem => assert(Tagger::spec_leaf_kinds()[4] == t),
                Tagger::StructItem => assert(Tagger::spec_leaf_kinds()[5] == t),
                Tagger::TraitItem => assert(Tagger::spec_leaf_kinds()[6] == t),
                Tagger::TypeItem => assert(Tagger::spec_leaf_kinds()[7] == t),
                Tagger::UseDeclaration => assert(Tagger::spec_leaf_kinds()[8] == t),
                Tagger::DeclarationList => assert(false),
            }
        }
    }
    assert forall|t: Tagger| Tagger::spec_branch_kinds().contains(t) <==> !t.spec_is_leaf() by {
        if !t.spec_is_leaf() {
            assert(Tagger::spec_branch_kinds()[0] == t);
        }
    }
}

/// One flattened path segment: internal `::` separators become a single
/// `-` token and all whitespace is stripped.
pub open spec fn spec_flattened(s: Seq<char>) -> Seq<char> {
    spec_dash_colons(spec_strip_spaces(s))
}

/// The synthesized path segment of a conformance block: `impl`, then
/// `<ContractPath>for` when the block binds a contract, then `<TypeName>`,
/// each flattened.
pub open spec fn spec_impl_segment(trait_text: Option<Seq<char>>, type_text: Option<Seq<char>>) -> Seq<char> {
    let base = "impl"@;
    let with_trait = match trait_text {
        Some(t) => base + seq!['<'] + spec_flattened(t) + ">for"@,
        None => base,
    };
    match type_text {
        Some(t) => with_trait + seq!['<'] + spec_flattened(t) + seq!['>'],
        None => with_trait,
    }
}

/// Builds the path segment of a conformance block from the text of its
/// contract and type children.
pub fn impl_segment(trait_text: Option<&str>, type_text: Option<&str>) -> (r: String)
    ensures
        r@ == spec_impl_segment(
            match trait_text {
                Some(t) => Some(t@),
                None => None,
            },
            match type_text {
                Some(t) => Some(t@),
                None => None,
            },
        ),
{
    let mut out = "impl".to_owned();
    if let Some(t) = trait_text {
        let flat = dash_colons(strip_spaces(t).as_str());
        crate::text::push_char(&mut out, '<');
        out.append(flat.as_str());
        out.append(">for");
        proof {
            assert(out@ =~= "impl"@ + seq!['<'] + spec_flattened(t@) + ">for"@);
        }
    }
    if let Some(t) = type_text {
        let flat = dash_colons(strip_spaces(t).as_str());
        crate::text::push_char(&mut out, '<');
        out.append(flat.as_str());
        crate::text::push_char(&mut out, '>');
        proof {
            if trait_text is Some {
                assert(out@ =~= ("impl"@ + seq!['<'] + spec_flattened(trait_text->0@) + ">for"@)
                    + seq!['<'] + spec_flattened(t@) + seq!['>']);
            } else {
                assert(out@ =~= "impl"@ + seq!['<'] + spec_flattened(t@) + seq!['>']);
            }
        }
    }
    out
}

/// The span just before a span's last byte, or the span itself when it is
/// empty: a branch's interior insertion point, in front of its closing
/// delimiter.
pub open spec fn spec_trim_end(r: Range) -> Range {
    if r.end_byte >= 1 {
        Range {
            start_byte: (r.end_byte - 1) as usize,
            end_byte: (r.end_byte - 1) as usize,
            start_point: r.end_point,
            end_point: r.end_point,
        }
    } else {
        r
    }
}

/// A span with its last byte given back, for the successive-run kinds whose
/// repetition capture takes one extra trailing token.
pub open spec fn spec_trim_last_byte(r: Range) -> Range {
    if r.end_byte >= 1 && r.start_byte <= r.end_byte - 1 {
        Range {
            start_byte: r.start_byte,
            end_byte: (r.end_byte - 1) as usize,
            start_point: r.start_point,
            end_point: r.end_point,
        }
    } else {
        r
    }
}

/// The replaceable span of a leaf: successive-run kinds give one byte back
/// at the end, other leaf kinds are replaced whole.
pub open spec fn spec_parse_range_leaf(t: Tagger, r: Range) -> Range {
    if t.spec_is_group() {
        spec_trim_last_byte(r)
    } else {
        r
    }
}

impl Tagger {
    /// The replaceable span of a matched leaf declaration.
    pub fn parse_range_leaf(leaf: GroupTag) -> (r: Range)
        ensures
            r == spec_parse_range_leaf(leaf.tagger, leaf.range),
    {
        match leaf.tagger {
            Tagger::ModItemLeaf => Self::trim_last_byte(leaf.range),
            Tagger::UseDeclaration => Self::trim_last_byte(leaf.range),
            _ => leaf.range,
        }
    }

    fn trim_last_byte(r: Range) -> (out: Range)
        ensures
            out == spec_trim_last_byte(r),
    {
        if r.end_byte >= 1 && r.start_byte <= r.end_byte - 1 {
            Range {
                start_byte: r.start_byte,
                end_byte: r.end_byte - 1,
                start_point: r.start_point,
                end_point: r.end_point,
            }
        } else {
            r
        }
    }

    /// The insertion span of a matched branch: its interior, just before the
    /// closing delimiter.
    pub fn parse_range_branch(branch: GroupTag) -> (r: Range)
        ensures
            r == spec_trim_end(branch.range),
    {
        Self::trim_end(branch.range)
    }

    /// The destination span when nothing of the buffer matches: the sentinel,
    /// appending at the end.
    pub fn parse_range_no_match(_inject: &GroupTag) -> (r: Range)
        ensures
            r == crate::group::spec_max_range(),
    {
        Range::max_value()
    }

    fn trim_end(r: Range) -> (out: Range)
        ensures
            out == spec_trim_end(r),
    {
        if r.end_byte >= 1 {
            Range {
                start_byte: r.end_byte - 1,
                end_byte: r.end_byte - 1,
                start_point: r.end_point,
                end_point: r.end_point,
            }
        } else {
            r
        }
    }

    /// One match's tag: the plain facts gathered from the tree, then the
    /// exact extraction over them. Returns `None` for matches that are not
    /// indexable.
    pub fn tag_from_match(&self, m: &ts::CodeMatch<'_>, code: &[u8]) -> (r: Option<GroupTag>)
        ensures
            match r {
                Some(g) => g.tagger == *self && (self.spec_is_leaf() ==> g.tag@.len() >= 1),
                None => true,
            },
    {
        let facts = Tagger::collect_match_facts(m, code);
        let r = self.tag_from_facts(&facts);
        proof {
            let s = spec_tag_from_facts(*self, facts);
            if r is Some {
                assert(s is Some);
                assert(r->0.tag@.len() == r->0.tag.deep_view().len());
            }
        }
        r
    }

    /// Gathers the plain facts of one match: whether it has a target node,
    /// the target's text, each capture's parent span, and the target's
    /// ancestor chain, innermost first.
    pub fn collect_match_facts(m: &ts::CodeMatch<'_>, code: &[u8]) -> (r: MatchFacts)
        ensures
            r.has_target == (m.captures@.len() > 0),
            r.parent_spans@.len() == if m.captures@.len() > 0 {
                m.captures@.len()
            } else {
                0
            },
    {
        if m.captures.len() == 0 {
            return MatchFacts {
                has_target: false,
                target_text: None,
                parent_spans: Vec::new(),
                ancestors: Vec::new(),
            };
        }
        let target = m.captures[0];
        let target_text = match ts::node_text(&target, code) {
            Some(t) => Some(t.to_owned()),
            None => None,
        };
        let mut parent_spans: Vec<Option<Range>> = Vec::new();
        let mut ci: usize = 0;
        while ci < m.captures.len()
            invariant
                ci <= m.captures@.len(),
                parent_spans@.len() == ci,
            decreases m.captures@.len() - ci,
        {
            parent_spans.push(ts::parent_span(&m.captures[ci]));
            ci = ci + 1;
        }
        let ancestors = ts::ancestor_facts(&target, code);
        MatchFacts { has_target: true, target_text, parent_spans, ancestors }
    }

    /// The extraction of one tag from a match's plain facts, exactly
    /// `spec_tag_from_facts`: the display name (a fixed placeholder for the
    /// successive-run kinds, the target's text otherwise), the union of the
    /// capture parents' spans, and the path walked from the ancestor chain,
    /// reversed into root-to-leaf order. `None` for declarations that are
    /// not indexable: those under a contract definition or a routine body,
    /// and matches whose texts cannot be read.
    pub fn tag_from_facts(&self, facts: &MatchFacts) -> (r: Option<GroupTag>)
        ensures
            match spec_tag_from_facts(*self, *facts) {
                Some(expected) => r matches Some(g) && g.tag.deep_view() == expected.0
                    && g.range == expected.1 && g.tagger == *self,
                None => r is None,
            },
    {
        if !facts.has_target {
            return None;
        }
        if facts.ancestors.len() == 0 {
            return None;
        }

        // The display name.
        let name_opt: Option<String> = if matches!(self, Tagger::UseDeclaration) {
            Some("<use>".to_owned())
        } else if matches!(self, Tagger::ModItemLeaf) {
            Some("<mod>".to_owned())
        } else {
            match &facts.target_text {
                Some(t) => Some(t.clone()),
                None => None,
            }
        };
        let name = match name_opt {
            Some(n) => n,
            None => {
                return None;
            },
        };
        proof {
            assert(spec_target_name(*self, *facts) == Some(name@));
        }

        // The replaceable span: the union of every capture's immediate
        // parent across the whole match.
        let mut acc: Option<Range> = None;
        let mut ci: usize = 0;
        while ci < facts.parent_spans.len()
            invariant
                ci <= facts.parent_spans@.len(),
                spec_union_fold(facts.parent_spans@, ci as int, acc) == spec_union_fold(
                    facts.parent_spans@,
                    0,
                    Option::<Range>::None,
                ),
            decreases facts.parent_spans@.len() - ci,
        {
            let s = facts.parent_spans[ci];
            acc = match (acc, s) {
                (None, s2) => s2,
                (Some(a), None) => Some(a),
                (Some(a), Some(s2)) => Some(a.union(s2)),
            };
            ci = ci + 1;
        }
        let range = match acc {
            Some(r) => r,
            None => {
                return None;
            },
        };

        // The path segments of the ancestor walk, innermost first. The walk
        // of a branch kind starts at the target's own container; a leaf
        // kind's starts one step further out.
        let start: usize = if matches!(self, Tagger::DeclarationList) {
            0
        } else {
            1
        };
        let mut segs: Vec<String> = Vec::new();
        let mut i: usize = start;
        proof {
            let w = spec_walk_segments(facts.ancestors@, start as int);
            if w is Some {
                assert(segs.deep_view() + w->0 =~~= w->0);
            }
        }
        while i < facts.ancestors.len()
            invariant
                facts.has_target,
                facts.ancestors@.len() >= 1,
                *self == Tagger::DeclarationList ==> start == 0,
                *self != Tagger::DeclarationList ==> start == 1,
                start <= i <= facts.ancestors@.len(),
                match spec_walk_segments(facts.ancestors@, i as int) {
                    Some(rest) => spec_walk_segments(facts.ancestors@, start as int) == Some(
                        segs.deep_view() + rest,
                    ),
                    None => spec_walk_segments(facts.ancestors@, start as int) is None,
                },
            decreases facts.ancestors@.len() - i,
        {
            let a = &facts.ancestors[i];
            if str_eq(a.kind.as_str(), "mod_item") {
                match &a.name_text {
                    FieldText::Text(t) => {
                        let ghost prev = segs@;
                        let ghost prev_dv = segs.deep_view();
                        let ghost tv = t@;
                        segs.push(t.clone());
                        proof {
                            let n = segs@.len() as int;
                            assert(segs.deep_view()[n - 1] == segs@[n - 1]@);
                            assert forall|k: int| 0 <= k < n - 1 implies segs.deep_view()[k]
                                == prev_dv[k] by {
                                assert(segs.deep_view()[k] == segs@[k]@);
                                assert(segs@[k] == prev[k]);
                                assert(prev_dv[k] == prev[k]@);
                            }
                            let w1 = spec_walk_segments(facts.ancestors@, i + 1);
                            if w1 is Some {
                                assert(spec_walk_segments(facts.ancestors@, i as int) == Some(
                                    seq![tv] + w1->0,
                                ));
                                assert(prev_dv + (seq![tv] + w1->0) =~~= segs.deep_view() + w1->0);
                            } else {
                                assert(spec_walk_segments(facts.ancestors@, i as int) is None);
                            }
                        }
                    },
                    FieldText::Absent => {},
                    FieldText::Unreadable => {
                        return None;
                    },
                }
            } else if str_eq(a.kind.as_str(), "trait_item") {
                return None;
            } else if str_eq(a.kind.as_str(), "function_item") {
                return None;
            } else if str_eq(a.kind.as_str(), "impl_item") {
                if matches!(&a.trait_text, FieldText::Unreadable) {
                    return None;
                }
                if matches!(&a.type_text, FieldText::Unreadable) {
                    return None;
                }
                let tt: Option<&str> = match &a.trait_text {
                    FieldText::Text(t) => Some(t.as_str()),
                    _ => None,
                };
                let ty: Option<&str> = match &a.type_text {
                    FieldText::Text(t) => Some(t.as_str()),
                    _ => None,
                };
                let segment = impl_segment(tt, ty);
                let ghost prev = segs@;
                let ghost prev_dv = segs.deep_view();
                let ghost sv = segment@;
                segs.push(segment);
                proof {
                    let n = segs@.len() as int;
                    assert(segs.deep_view()[n - 1] == segs@[n - 1]@);
                    assert forall|k: int| 0 <= k < n - 1 implies segs.deep_view()[k] == prev_dv[k] by {
                        assert(segs.deep_view()[k] == segs@[k]@);
                        assert(segs@[k] == prev[k]);
                        assert(prev_dv[k] == prev[k]@);
                    }
                    assert(sv == spec_impl_segment(
                        spec_field_opt(facts.ancestors@[i as int].trait_text),
                        spec_field_opt(facts.ancestors@[i as int].type_text),
                    ));
                    let w1 = spec_walk_segments(facts.ancestors@, i + 1);
                    if w1 is Some {
                        assert(spec_walk_segments(facts.ancestors@, i as int) == Some(
                            seq![sv] + w1->0,
                        ));
                        assert(prev_dv + (seq![sv] + w1->0) =~~= segs.deep_view() + w1->0);
                    } else {
                        assert(spec_walk_segments(facts.ancestors@, i as int) is None);
                    }
                }
            } else {
            }
            i = i + 1;
        }
        proof {
            let w = spec_walk_segments(facts.ancestors@, start as int);
            assert(w is Some);
            assert(segs.deep_view() + Seq::<Seq<char>>::empty() =~~= segs.deep_view());
            assert(w == Some(segs.deep_view()));
        }

        // Assemble in root-to-leaf order: segments were found leaf-to-root,
        // the declaration's own name first for leaf kinds.
        let ghost name_view = name@;
        let ghost segs_dv = segs.deep_view();
        let mut parts: Vec<String> = Vec::new();
        if !matches!(self, Tagger::DeclarationList) {
            parts.push(name);
        }
        let ghost head = parts@;
        let ghost head_dv = parts.deep_view();
        let mut segs_m = segs;
        parts.append(&mut segs_m);
        proof {
            let expected_parts: Seq<Seq<char>> = if *self == Tagger::DeclarationList {
                segs_dv
            } else {
                seq![name_view] + segs_dv
            };
            assert forall|k: int| 0 <= k < parts@.len() implies parts.deep_view()[k]
                == expected_parts[k] by {
                assert(parts.deep_view()[k] == parts@[k]@);
                if k < head.len() {
                    assert(parts@[k] == head[k]);
                    assert(head_dv[k] == head[k]@);
                } else {
                    assert(segs_dv[k - head.len()] == parts@[k]@);
                }
            }
            assert(parts.deep_view() =~~= expected_parts);
        }
        let tag = crate::text::reverse_strings(parts);
        Some(GroupTag { tag, range, tagger: *self })
    }
}

/// The plain facts of one query match, gathered from the tree: everything
/// the tag extraction reads.
pub struct MatchFacts {
    pub has_target: bool,
    pub target_text: Option<String>,
    pub parent_spans: Vec<Option<Range>>,
    pub ancestors: Vec<NodeFacts>,
}

/// The text of one grammar field as the walk reads it: present text, or
/// nothing for an absent field. An unreadable field fails the walk instead.
pub open spec fn spec_field_opt(f: FieldText) -> Option<Seq<char>> {
    match f {
        FieldText::Text(t) => Some(t@),
        FieldText::Absent => None,
        FieldText::Unreadable => None,
    }
}

/// The union of the capture parents' spans from index `i` on, folded onto
/// `acc`; captures without a parent contribute nothing.
pub open spec fn spec_union_fold(spans: Seq<Option<Range>>, i: int, acc: Option<Range>) -> Option<
    Range,
>
    decreases spans.len() - i,
{
    if i < 0 || i >= spans.len() {
        acc
    } else {
        let acc2 = match (acc, spans[i]) {
            (None, s) => s,
            (Some(a), None) => Some(a),
            (Some(a), Some(s)) => Some(spec_union(a, s)),
        };
        spec_union_fold(spans, i + 1, acc2)
    }
}

/// The path segments contributed by the ancestors from index `i` outward,
/// innermost first: a named scope contributes its name, a conformance block
/// its synthesized segment, a contract definition or routine body fails the
/// whole walk, anything else contributes nothing. An unreadable field also
/// fails the walk.
pub open spec fn spec_walk_segments(ancestors: Seq<NodeFacts>, i: int) -> Option<Seq<Seq<char>>>
    decreases ancestors.len() - i,
{
    if i < 0 || i >= ancestors.len() {
        Some(Seq::empty())
    } else {
        let a = ancestors[i];
        if a.kind@ == "mod_item"@ {
            match a.name_text {
                FieldText::Text(t) => match spec_walk_segments(ancestors, i + 1) {
                    Some(rest) => Some(seq![t@] + rest),
                    None => None,
                },
                FieldText::Absent => spec_walk_segments(ancestors, i + 1),
                FieldText::Unreadable => None,
            }
        } else if a.kind@ == "trait_item"@ {
            None
        } else if a.kind@ == "function_item"@ {
            None
        } else if a.kind@ == "impl_item"@ {
            if a.trait_text is Unreadable || a.type_text is Unreadable {
                None
            } else {
                match spec_walk_segments(ancestors, i + 1) {
                    Some(rest) => Some(
                        seq![
                            spec_impl_segment(
                                spec_field_opt(a.trait_text),
                                spec_field_opt(a.type_text),
                            ),
                        ] + rest,
                    ),
                    None => None,
                }
            }
        } else {
            spec_walk_segments(ancestors, i + 1)
        }
    }
}

/// The display name of one match per kind: the fixed placeholder of a
/// successive-run kind, the target's text otherwise; nothing when that text
/// cannot be read.
pub open spec fn spec_target_name(kind: Tagger, facts: MatchFacts) -> Option<Seq<char>> {
    if kind == Tagger::UseDeclaration {
        Some("<use>"@)
    } else if kind == Tagger::ModItemLeaf {
        Some("<mod>"@)
    } else {
        match facts.target_text {
            Some(t) => Some(t@),
            None => None,
        }
    }
}

/// What the extraction yields from one match's facts: the tag path in
/// root-to-leaf order and the replaceable span, or nothing when the match
/// is not indexable. A match needs a target node with a parent, a readable
/// name, at least one capture with a parent for the span, and a walk that
/// crosses no contract definition or routine body.
pub open spec fn spec_tag_from_facts(kind: Tagger, facts: MatchFacts) -> Option<
    (Seq<Seq<char>>, Range),
> {
    if !facts.has_target || facts.ancestors@.len() == 0 {
        None
    } else {
        let name = spec_target_name(kind, facts);
        let span = spec_union_fold(facts.parent_spans@, 0, None);
        let segs = if kind == Tagger::DeclarationList {
            spec_walk_segments(facts.ancestors@, 0)
        } else {
            spec_walk_segments(facts.ancestors@, 1)
        };
        match (name, span, segs) {
            (Some(name), Some(span), Some(segs)) => {
                let parts = if kind == Tagger::DeclarationList {
                    segs
                } else {
                    seq![name] + segs
                };
                Some((parts.reverse(), span))
            },
            _ => None,
        }
    }
}

} // verus!

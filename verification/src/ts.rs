//! The trusted boundary to the tree-sitter incremental parser.
//!
//! Each item here declares one outside type, names one deterministic outside
//! result, or wraps one call into the tree-sitter crates. Everything the
//! engine learns about a syntax tree passes through these wrappers; the
//! merge logic itself is verified. The grammar is fixed to the one linked
//! Rust grammar, so parse success, query validity and match counts are
//! functions of the bytes alone and may be named.

use tree_sitter::StreamingIterator as _;
use vstd::prelude::*;

verus! {

#[verifier::external_type_specification]
#[verifier::external_body]
pub struct ExLanguage(tree_sitter::Language);

#[verifier::external_type_specification]
#[verifier::external_body]
pub struct ExTree(tree_sitter::Tree);

#[verifier::external_type_specification]
#[verifier::external_body]
pub struct ExQuery(tree_sitter::Query);

#[verifier::external_type_specification]
#[verifier::external_body]
pub struct ExNode<'tree>(tree_sitter::Node<'tree>);

/// The captures of one query match, in capture order.
pub struct CodeMatch<'tree> {
    pub captures: Vec<tree_sitter::Node<'tree>>,
}

/// The text of one grammar field of a node: absent, present but not valid
/// UTF-8 (or out of the read buffer), or its characters.
#[derive(Debug, Clone)]
pub enum FieldText {
    Absent,
    Unreadable,
    Text(String),
}

/// The plain facts of one ancestor of a matched node: its grammar-rule name
/// and the texts of the three fields the tag walk reads.
#[derive(Debug, Clone)]
pub struct NodeFacts {
    pub kind: String,
    pub name_text: FieldText,
    pub trait_text: FieldText,
    pub type_text: FieldText,
}

/// Whether the bytes parse under the linked Rust grammar. Parsing is a
/// function of the bytes alone, so the result carries a name.
pub uninterp spec fn spec_rust_parses(code: Seq<u8>) -> bool;

/// Whether the string is a valid query of the linked Rust grammar.
pub uninterp spec fn spec_rust_query_ok(query: Seq<char>) -> bool;

/// How many matches the query yields over the parse of the bytes.
pub uninterp spec fn spec_query_match_count(query: Seq<char>, code: Seq<u8>) -> int;

/// Relies on tree_sitter::Language::new and tree_sitter_rust::LANGUAGE: the
/// Rust grammar bound as a tree-sitter language.
#[verifier::external_body]
pub(crate) fn rust_language() -> tree_sitter::Language {
    tree_sitter::Language::new(tree_sitter_rust::LANGUAGE)
}

/// Relies on tree_sitter::Parser::parse under the linked Rust grammar:
/// parses one whole buffer. `None` when the grammar cannot be loaded or
/// parsing is halted; `Some` exactly on the bytes the grammar parses.
#[verifier::external_body]
pub(crate) fn rust_parse(code: &[u8]) -> (r: Option<tree_sitter::Tree>)
    ensures
        r is Some <==> spec_rust_parses(code@),
{
    let mut parser = tree_sitter::Parser::new();
    parser.set_language(&tree_sitter::Language::new(tree_sitter_rust::LANGUAGE)).ok()?;
    parser.parse(code, None)
}

/// Relies on tree_sitter::Query::new against the linked Rust grammar:
/// compiles one query string, `Some` exactly on the valid ones.
#[verifier::external_body]
pub(crate) fn rust_query_new(source: &str) -> (r: Option<tree_sitter::Query>)
    ensures
        r is Some <==> spec_rust_query_ok(source@),
{
    tree_sitter::Query::new(&tree_sitter::Language::new(tree_sitter_rust::LANGUAGE), source).ok()
}

/// Relies on tree_sitter::QueryCursor::matches over a fresh parse of the
/// bytes: how many matches the query yields. `Some` exactly when the bytes
/// parse and the query is valid.
#[verifier::external_body]
pub(crate) fn rust_query_match_count(query: &str, code: &[u8]) -> (r: Option<usize>)
    ensures
        r is Some <==> (spec_rust_parses(code@) && spec_rust_query_ok(query@)),
        match r {
            Some(n) => n as int == spec_query_match_count(query@, code@),
            None => true,
        },
{
    let lang = tree_sitter::Language::new(tree_sitter_rust::LANGUAGE);
    let mut parser = tree_sitter::Parser::new();
    parser.set_language(&lang).ok()?;
    let tree = parser.parse(code, None)?;
    let q = tree_sitter::Query::new(&lang, query).ok()?;
    let mut cursor = tree_sitter::QueryCursor::new();
    let mut matches = cursor.matches(&q, tree.root_node(), code);
    let mut n: usize = 0;
    while matches.next().is_some() {
        n += 1;
    }
    Some(n)
}

/// Relies on tree_sitter::Tree::root_node: the root of a parsed tree.
#[verifier::external_body]
pub(crate) fn tree_root_node<'tree>(tree: &'tree tree_sitter::Tree) -> (r: tree_sitter::Node<'tree>) {
    tree.root_node()
}

/// Relies on tree_sitter::QueryCursor::matches: runs one query over the
/// subtree at `node` and hands back each match's captured nodes, in the
/// order the matches were found.
#[verifier::external_body]
pub(crate) fn query_run<'tree>(
    query: &tree_sitter::Query,
    node: tree_sitter::Node<'tree>,
    code: &[u8],
) -> (r: Vec<CodeMatch<'tree>>) {
    let mut cursor = tree_sitter::QueryCursor::new();
    let mut matches = cursor.matches(query, node, code);
    let mut out = Vec::new();
    while let Some(m) = matches.next() {
        out.push(CodeMatch { captures: m.captures().iter().map(|c| c.node).collect() });
    }
    out
}

/// Relies on tree_sitter::Node::start_byte, end_byte and slice indexing:
/// the bytes of `code` under the node, when the node's span lies inside
/// `code` and holds valid UTF-8. The span is bound-checked here because the
/// node may come from the parse of a different buffer.
#[verifier::external_body]
pub(crate) fn node_text<'code>(node: &tree_sitter::Node<'_>, code: &'code [u8]) -> (r: Option<
    &'code str,
>) {
    let bytes = code.get(node.start_byte()..node.end_byte())?;
    std::str::from_utf8(bytes).ok()
}

/// Relies on tree_sitter::Node::parent and Node::range: the span of the
/// node's immediate ancestor, handed over as the engine's own plain span.
#[verifier::external_body]
pub(crate) fn parent_span(node: &tree_sitter::Node<'_>) -> (r: Option<crate::group::Range>) {
    let p = node.parent()?;
    let r = p.range();
    Some(
        crate::group::Range {
            start_byte: r.start_byte,
            end_byte: r.end_byte,
            start_point: crate::group::Point { row: r.start_point.row, column: r.start_point.column },
            end_point: crate::group::Point { row: r.end_point.row, column: r.end_point.column },
        },
    )
}

/// Relies on tree_sitter::Node::child_by_field_name and the node texts: the
/// text of the node's field `f`, absent when the node has no such field and
/// unreadable when its span falls outside `code` or is not UTF-8.
#[verifier::external_body]
pub(crate) fn field_text(n: &tree_sitter::Node<'_>, f: &str, code: &[u8]) -> (r: FieldText) {
    match n.child_by_field_name(f) {
        None => FieldText::Absent,
        Some(c) => match node_text(&c, code) {
            Some(t) => FieldText::Text(t.to_owned()),
            None => FieldText::Unreadable,
        },
    }
}

/// Relies on tree_sitter::Node::kind: one node as a plain record — its rule
/// name and the texts of its `name`, `trait` and `type` fields.
#[verifier::external_body]
pub(crate) fn node_facts_of(n: &tree_sitter::Node<'_>, code: &[u8]) -> (r: NodeFacts) {
    NodeFacts {
        kind: n.kind().to_owned(),
        name_text: field_text(n, "name", code),
        trait_text: field_text(n, "trait", code),
        type_text: field_text(n, "type", code),
    }
}

/// Relies on tree_sitter::Node::parent: the node's ancestor chain as plain
/// records, innermost first. Pure conversion of the tree into library-owned
/// values; the tag walk over them is verified.
#[verifier::external_body]
pub(crate) fn ancestor_facts(node: &tree_sitter::Node<'_>, code: &[u8]) -> (r: Vec<NodeFacts>) {
    let mut out = Vec::new();
    let mut cur = *node;
    while let Some(p) = cur.parent() {
        out.push(node_facts_of(&p, code));
        cur = p;
    }
    out
}

} // verus!

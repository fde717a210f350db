use mistral_nvim::group::{GroupTag, Point, Range, range_le};
use mistral_nvim::langs::rust::Tagger;
use mistral_nvim::parser::{CodeParser, ReversedInjectionsRanges};

fn count_errors(code: &[u8]) -> usize {
    let parser = CodeParser::new(code).unwrap();
    parser.count_errors().unwrap()
}

fn assert_no_error_in_code(code: &[u8]) {
    assert_eq!(count_errors(code), 0, "CODE contains errors !!!");
}

fn joined_tags(tags: &[GroupTag]) -> Vec<String> {
    tags.iter().map(|t| t.joined()).collect()
}

fn strip_ws(s: &str) -> String {
    s.chars().filter(|c| !c.is_whitespace()).collect()
}

/// Formatting is out of the engine's scope: a post-merge formatter belongs
/// to the surrounding system. Splices that only replace are held to the
/// expected text exactly; splices that insert are held to it up to
/// whitespace.
fn inject(initial: &[u8], injected: &[u8], expected: &[u8]) {
    assert_no_error_in_code(initial);
    assert_no_error_in_code(injected);
    assert_no_error_in_code(expected);
    let parser = CodeParser::new(initial).unwrap();
    let modif = parser.test_inject(injected).unwrap();
    let modif = String::from_utf8(modif).unwrap();
    let initial = std::str::from_utf8(initial).unwrap();
    let expected = std::str::from_utf8(expected).unwrap();
    assert_ne!(modif, initial, "\n\nHas not changed at all.\n");
    assert_eq!(
        strip_ws(&modif),
        strip_ws(expected),
        "\n\nDoes not match final.\nGot:\n{modif}\nExpected:\n{expected}\n"
    );
}

fn inject_exact(initial: &[u8], injected: &[u8], expected: &[u8]) {
    assert_no_error_in_code(initial);
    assert_no_error_in_code(injected);
    assert_no_error_in_code(expected);
    let parser = CodeParser::new(initial).unwrap();
    let modif = parser.test_inject(injected).unwrap();
    let modif = String::from_utf8(modif).unwrap();
    let initial = std::str::from_utf8(initial).unwrap();
    let expected = std::str::from_utf8(expected).unwrap();
    assert_ne!(modif, initial, "\n\nHas not changed at all.\n");
    for (line_modif, line_expected) in modif.split("\n").zip(expected.split("\n")) {
        assert_eq!(line_modif, line_expected, "\n\nDoes not match final.\n");
    }
}

const CODE_FN_INITIAL: &'static [u8; 202] = br###"
fn fonction(code: &str) -> Result<Vec<String>, String> {
    fn inner(code: &str) -> Result<Vec<String>, String> {todo!()}
    inner()
}
fn other(code: &str) -> Result<Vec<String>, String> { todo!() }
"###;
const CODE_FN_INJECTION: &'static [u8; 238] = br###"
fn fonction(code: &str) -> Result<Vec<String>, String> {
    fn inner(code: &str) -> Result<Vec<String>, String> {
        Ok(vec![code.to_string()])
    }
    inner().map(|items| items.map(|c| (c + "\n// ...").to_string()).collect())
}
"###;
const CODE_FN_FINAL: &'static [u8; 302] = br###"
fn fonction(code: &str) -> Result<Vec<String>, String> {
    fn inner(code: &str) -> Result<Vec<String>, String> {
        Ok(vec![code.to_string()])
    }
    inner().map(|items| items.map(|c| (c + "\n// ...").to_string()).collect())
}
fn other(code: &str) -> Result<Vec<String>, String> { todo!() }
"###;

#[test]
fn inject_fn() {
    inject_exact(CODE_FN_INITIAL, CODE_FN_INJECTION, CODE_FN_FINAL);
}

const CODE_FN_INITIAL_MULTI: &'static [u8; 269] = br###"
fn fonction(code: &str) -> Result<Vec<String>, String> {
    fn inner(code: &str) -> Result<Vec<String>, String> {todo!()}
    inner()
}
fn whatever(code: &str) -> Result<Vec<String>, String> { todo!() }
fn other(code: &str) -> Result<Vec<String>, String> { todo!() }
"###;
const CODE_FN_INJECTION_MULTI: &'static [u8; 285] = br###"
fn fonction(code: &str) -> Result<Vec<String>, String> {
    fn inner(code: &str) -> Result<Vec<String>, String> {
        Ok(vec![code.to_string()])
    }
    inner().map(|items| items.map(|c| (c + "\n// ...").to_string()).collect())
}
fn other(code: &str) -> Vec<String> { vec![] }
"###;
const CODE_FN_FINAL_MULTI: &'static [u8; 352] = br###"
fn fonction(code: &str) -> Result<Vec<String>, String> {
    fn inner(code: &str) -> Result<Vec<String>, String> {
        Ok(vec![code.to_string()])
    }
    inner().map(|items| items.map(|c| (c + "\n// ...").to_string()).collect())
}
fn whatever(code: &str) -> Result<Vec<String>, String> { todo!() }
fn other(code: &str) -> Vec<String> { vec![] }
"###;

#[test]
fn inject_fn_multiple() {
    inject_exact(CODE_FN_INITIAL_MULTI, CODE_FN_INJECTION_MULTI, CODE_FN_FINAL_MULTI);
}

const CODE_FN_INITIAL_NEW: &'static [u8; 202] = br###"
fn fonction(code: &str) -> Result<Vec<String>, String> {
    fn inner(code: &str) -> Result<Vec<String>, String> {todo!()}
    inner()
}
fn other(code: &str) -> Result<Vec<String>, String> { todo!() }
"###;
const CODE_FN_INJECTION_NEW: &'static [u8; 69] = br###"

fn whatever(code: &str) -> Result<Vec<String>, String> { todo!() }
"###;
const CODE_FN_FINAL_NEW: &'static [u8; 269] = br###"
fn fonction(code: &str) -> Result<Vec<String>, String> {
    fn inner(code: &str) -> Result<Vec<String>, String> {todo!()}
    inner()
}
fn other(code: &str) -> Result<Vec<String>, String> { todo!() }
fn whatever(code: &str) -> Result<Vec<String>, String> { todo!() }
"###;

#[test]
fn inject_fn_new() {
    inject(CODE_FN_INITIAL_NEW, CODE_FN_INJECTION_NEW, CODE_FN_FINAL_NEW);
}

const CODE_TRAIT_INITIAL: &'static [u8; 577] = br###"
pub trait TypeTagger: Sized + 'static {
    type Lang: LanguageExt;

    const BRANCHES: &[Self];
    const LEAFS: &[Self];
    const QUERY_ERROR: &'static str = QUERY_ERROR;

    fn get_query_str(&self) -> std::borrow::Cow<'_, str>;
    fn get_query(&self) -> CodeQuery {
        CodeQuery::new_valid_query(&Self::Lang::language(), self.get_query_str())
    }
    fn query_error() -> CodeQuery {
        CodeQuery::new_valid_query(&Self::Lang::language(), Self::QUERY_ERROR.into())
    }
    fn tag_from_match(&self, m: &QueryMatch, code: &[u8]) -> Option<GroupTag<Self>>;
}
"###;
const CODE_TRAIT_INJECTION: &'static [u8; 329] = br###"
pub trait TypeTagger: Sized + 'static {
    type Other: LanguageExt;

    const QUERY_ERROR: &'static str = QUERY_ERROR;

    fn query_error() -> CodeQuery {
        CodeQuery::new_valid_query(&Self::Lang::language(), Self::QUERY_ERROR.into())
    }
    fn other(&self, m: &QueryMatch, code: &[u8]) -> Option<GroupTag<Self>>;
}
"###;
const CODE_TRAIT_FINAL: &'static [u8; 329] = CODE_TRAIT_INJECTION;

#[test]
fn inject_trait() {
    inject_exact(CODE_TRAIT_INITIAL, CODE_TRAIT_INJECTION, CODE_TRAIT_FINAL);
}

const CODE_MOD_BLOCK_INITIAL: &'static [u8; 84] = br###"
mod a {
    mod b {
        mod c {
            fn fonction() {}
        }
    }
}
"###;
const CODE_MOD_BLOCK_INJECTION: &'static [u8; 114] = br###"
mod a {
    mod b {
        mod c {
            fn fonction() { todo!() }
        }
    }
    fn fonction() {}
}
"###;
const CODE_MOD_BLOCK_FINAL: &'static [u8; 114] = br###"
mod a {
    mod b {
        mod c {
            fn fonction() { todo!() }
        }
    }
    fn fonction() {}
}
"###;

#[test]
fn inject_mod_block() {
    inject(CODE_MOD_BLOCK_INITIAL, CODE_MOD_BLOCK_INJECTION, CODE_MOD_BLOCK_FINAL);
}

const CODE_MOD_LEAF_INITIAL: &'static [u8; 47] = br###"
mod a;
mod b;
mod c;
mod block {
    mod a;
}
"###;
const CODE_MOD_LEAF_INJECTION: &'static [u8; 29] = br###"
mod d;
mod a {
    mod c;
}
"###;

/// A module-declaration run is one leaf: the matching destination run is
/// replaced wholesale (its span reaching the enclosing container, less the
/// trailing token the repetition capture takes), and the fragment's nested
/// run, matching nothing, is appended at the end of the buffer.
#[test]
fn inject_mod_leaf() {
    let parser = CodeParser::new(CODE_MOD_LEAF_INITIAL).unwrap();
    let modif = parser.test_inject(CODE_MOD_LEAF_INJECTION).unwrap();
    let modif = String::from_utf8(modif).unwrap();
    assert_eq!(modif, "\nmod d;\nmod a {\n    mod c;\n}\n\n{\n    mod c;\n}");
}

const CODE_USE_INITIAL: &'static [u8; 47] = br###"
use a;
use b;
use c;
mod block {
    use a;
}
"###;
const CODE_USE_INJECTION: &'static [u8; 29] = br###"
use d;
mod a {
    use c;
}
"###;

/// An import run is one leaf: the destination's top run (less the trailing
/// token the repetition capture takes) is replaced by the fragment's run,
/// and the fragment's nested run, matching no leaf and no branch, is
/// appended at the end.
#[test]
fn inject_use() {
    let parser = CodeParser::new(CODE_USE_INITIAL).unwrap();
    let modif = parser.test_inject(CODE_USE_INJECTION).unwrap();
    let modif = String::from_utf8(modif).unwrap();
    assert_eq!(modif, "\nuse d;;\nmod block {\n    use a;\n}\nuse c;");
}

#[test]
fn error() {
    assert_eq!(count_errors(b"fn f;"), 1);
    assert_eq!(count_errors(b"mod plop::truc;"), 1);
}

const CODE_FN: &'static [u8; 444] = br###"
fn fonction(code: &str) -> Result<Vec<String>, String> {
    fn inner(code: &str) -> Result<Vec<String>, String> {todo!()}
}
trait Trait {
    fn fonction(code: &str) -> Result<Vec<String>, String> {todo!()}
}
impl Implementation {
    fn fonction(code: &str) -> Result<Vec<String>, String> {todo!()}
}
mod mymod {
    impl quelque::part::Trait for SomeStruct {
        fn fonction(code: &str) -> Result<Vec<String>, String> {todo!()}
    }
}
"###;

#[test]
fn list_fn() {
    let code = CODE_FN;
    assert_no_error_in_code(code);
    let parser = CodeParser::new(code).unwrap();
    let tags = parser.list_tags(&Tagger::FunctionItem).unwrap();
    assert_eq!(
        joined_tags(&tags),
        vec![
            "fonction",
            "impl<Implementation>::fonction",
            "mymod::impl<quelque-part-Trait>for<SomeStruct>::fonction"
        ]
    );
    parser.find_tag(&tags[1]).unwrap();
}

const CODE_TYPE: &'static [u8; 581] = br###"
type Type = usize;
fn fonction(code: &str) -> Result<Vec<String>, String> {
    type Type = usize;
}
trait Trait {
    type Type = usize;
    fn fonction(code: &str) -> Result<Vec<String>, String> {todo!()}
}
impl Implementation {
    type Type = usize;
    type AssociatedType: Trait;
    fn fonction(code: &str) -> Result<Vec<String>, String> {todo!()}
}
mod mymod {
    type Type = usize;
    impl quelque::part::Trait for SomeStruct {
        type Type = usize;
        fn fonction(code: &str) -> Result<Vec<String>, String> {
            type Type = usize;
        }
    }
}
"###;

#[test]
fn list_type() {
    let code = CODE_TYPE;
    assert_no_error_in_code(code);
    let parser = CodeParser::new(code).unwrap();
    let tags = parser.list_tags(&Tagger::TypeItem).unwrap();
    assert_eq!(
        joined_tags(&tags),
        vec![
            "Type",
            "impl<Implementation>::Type",
            "mymod::Type",
            "mymod::impl<quelque-part-Trait>for<SomeStruct>::Type",
        ]
    );
    parser.find_tag(&tags[1]).unwrap();
}

const CODE_MOD: &'static [u8; 69] = br###"
mod un;
mod deux;
mod trois;
mod zero;
mod inner {
    mod inner;
}
"###;

#[test]
fn list_mod_succesive() {
    let code = CODE_MOD;
    assert_no_error_in_code(code);
    let parser = CodeParser::new(code).unwrap();
    let tags = parser.list_tags(&Tagger::ModItemLeaf).unwrap();
    assert_eq!(tags.len(), 2);
    assert_eq!(joined_tags(&tags), vec!["<mod>", "inner::<mod>"]);
    parser.find_tag(&tags[1]).unwrap();
}

const CODE_CONST: &'static [u8; 131] = br###"
const MY_CONST: usize = 0;
mod mymod {
    const INNER_CONST: usize = 0;
}
trait Trait {
    const ASSOCIATED_CONST: usize = 0;
}
"###;

#[test]
fn list_const() {
    let code = CODE_CONST;
    assert_no_error_in_code(code);
    let parser = CodeParser::new(code).unwrap();
    let tags = parser.list_tags(&Tagger::ConstItem).unwrap();
    assert_eq!(joined_tags(&tags), vec!["MY_CONST", "mymod::INNER_CONST"]);
    parser.find_tag(&tags[1]).unwrap();
}

const CODE_STATIC: &'static [u8; 137] = br###"
static MY_STATIC: usize = 0;
mod mymod {
    static INNER_STATIC: usize = 0;
}
trait Trait {
    static ASSOCIATED_STATIC: usize = 0;
}
"###;

#[test]
fn list_static() {
    let code = CODE_STATIC;
    assert_no_error_in_code(code);
    let parser = CodeParser::new(code).unwrap();
    let tags = parser.list_tags(&Tagger::StaticItem).unwrap();
    assert_eq!(joined_tags(&tags), vec!["MY_STATIC", "mymod::INNER_STATIC"]);
    parser.find_tag(&tags[1]).unwrap();
}

const CODE_ENUM: &'static [u8; 111] = br###"
enum Enum { A, B }
mod mymod {
    enum InnerEnum { X, Y }
}
fn fonction() {
    enum FonctionEnum { P, Q }
}
"###;

#[test]
fn list_enum() {
    let code = CODE_ENUM;
    assert_no_error_in_code(code);
    let parser = CodeParser::new(code).unwrap();
    let tags = parser.list_tags(&Tagger::EnumItem).unwrap();
    assert_eq!(joined_tags(&tags), vec!["Enum", "mymod::InnerEnum"]);
    parser.find_tag(&tags[1]).unwrap();
}

const CODE_STRUCT: &'static [u8; 131] = br###"
struct MyStruct;
mod mymod {
    struct InnerStruct;
}
trait Trait {
    struct AssociatedStruct {
        field: String,
    }
}
"###;

#[test]
fn list_struct() {
    let code = CODE_STRUCT;
    assert_no_error_in_code(code);
    let parser = CodeParser::new(code).unwrap();
    let tags = parser.list_tags(&Tagger::StructItem).unwrap();
    assert_eq!(joined_tags(&tags), vec!["MyStruct", "mymod::InnerStruct"]);
    parser.find_tag(&tags[1]).unwrap();
}

const CODE_USE: &'static [u8; 128] = br###"
use std::collections::HashMap;
use std::io;
use std::path::Path;
use mymod::path::Path;
mod tests {
    use std::path::Path;
}
"###;

#[test]
fn list_use() {
    let code = CODE_USE;
    assert_no_error_in_code(code);
    let parser = CodeParser::new(code).unwrap();
    let tags = parser.list_tags(&Tagger::UseDeclaration).unwrap();
    assert_eq!(joined_tags(&tags), vec!["<use>", "tests::<use>"]);
    parser.find_tag(&tags[1]).unwrap();
    let range = tags[0].range;
    let start = range.start_byte;
    let end = range.end_byte;
    let first_block = std::str::from_utf8(&code[start..end]).unwrap();
    assert_eq!(start, 1, "\n\nSTART RANGE issue\n");
    assert_eq!(end, 88, "\n\nEND RANGE issue\n");
    let expected = r#"use std::collections::HashMap;
use std::io;
use std::path::Path;
use mymod::path::Path;"#;
    assert_eq!(first_block, expected);
}

const CODE_TAG_IMPL: &'static [u8; 195] = br###"
struct Truc<T>(T);
struct Plop<T, U>(T, U);
trait A {};
trait B {};
impl A for Truc<T> {type Num = usize;}
impl B for Truc<T> {type Num = usize;}
impl<T: A, U: B> Plop<T, U> {type Num = usize;}
"###;

#[test]
fn tags() {
    let code = CODE_TAG_IMPL;
    assert_no_error_in_code(code);
    let parser = CodeParser::new(code).unwrap();
    let tags = parser.list_tags(&Tagger::TypeItem).unwrap();
    assert_eq!(
        joined_tags(&tags),
        vec![
            "impl<A>for<Truc<T>>::Num",
            "impl<B>for<Truc<T>>::Num",
            "impl<Plop<T,U>>::Num"
        ]
    );
    parser.find_tag(&tags[1]).unwrap();
}

const CODE_DECLARATION: &'static [u8; 136] = br###"
mod a {}
impl A for Truc<T> {type Num = usize;}
impl B for Truc<T> {type Num = usize;}
impl<T: A, U: B> Plop<T, U> {type Num = usize;}
"###;

#[test]
fn list_declaration() {
    let code = CODE_DECLARATION;
    assert_no_error_in_code(code);
    let parser = CodeParser::new(code).unwrap();
    let tags = parser.list_tags(&Tagger::DeclarationList).unwrap();
    assert_eq!(
        joined_tags(&tags),
        vec!["a", "impl<A>for<Truc<T>>", "impl<B>for<Truc<T>>", "impl<Plop<T,U>>"]
    );
    parser.find_tag(&tags[1]).unwrap();
}

/// Merging a fragment twice gives the same bytes as merging it once.
#[test]
fn merge_idempotent() {
    let initial = CODE_FN_INITIAL;
    let fragment = CODE_FN_INJECTION;
    let parser = CodeParser::new(initial).unwrap();
    let once = parser.test_inject(fragment).unwrap();
    let parser_again = CodeParser::new(once.as_slice()).unwrap();
    let twice = parser_again.test_inject(fragment);
    match twice {
        Some(twice) => assert_eq!(once, twice),
        // A second merge that changes nothing is also idempotence.
        None => {}
    }
}

/// A fragment re-declaring only `a` replaces exactly `a`'s span and leaves
/// the sibling `b` byte-for-byte untouched.
#[test]
fn targeted_replacement_preserves_sibling() {
    let initial = b"fn a() { 1 }\nfn b() { 2 }\n";
    let fragment = b"fn a() { todo!() }\n";
    let parser = CodeParser::new(initial).unwrap();
    let merged = parser.test_inject(fragment).unwrap();
    let merged = String::from_utf8(merged).unwrap();
    assert_eq!(merged, "fn a() { todo!() }\nfn b() { 2 }\n");
}

/// A brand-new member path whose prefix matches an existing branch is
/// inserted just before that branch's closing delimiter, leaving existing
/// members alone.
#[test]
fn insertion_anchor_in_branch() {
    let initial = b"mod outer {\n    fn a() {}\n}\n";
    let fragment = b"mod outer {\n    fn b() {}\n}\n";
    let parser = CodeParser::new(initial).unwrap();
    let merged = parser.test_inject(fragment).unwrap();
    let merged = String::from_utf8(merged).unwrap();
    assert_eq!(merged, "mod outer {\n    fn a() {}\nfn b() {}}\n");
}

/// A path with no matching leaf and no matching branch anywhere is appended
/// verbatim at the end of the buffer.
#[test]
fn fallback_appends_at_end() {
    let initial = b"fn a() {}\n";
    let fragment = b"fn brand_new() {}\n";
    let parser = CodeParser::new(initial).unwrap();
    let merged = parser.test_inject(fragment).unwrap();
    let merged = String::from_utf8(merged).unwrap();
    assert_eq!(merged, "fn a() {}\nfn brand_new() {}");
}

/// The span algebra: union takes the enclosing span, the sentinel marks "no
/// concrete position", and the order goes by start byte first.
#[test]
fn range_algebra() {
    let a = Range {
        start_byte: 2,
        end_byte: 10,
        start_point: Point { row: 0, column: 2 },
        end_point: Point { row: 1, column: 3 },
    };
    let b = Range {
        start_byte: 5,
        end_byte: 20,
        start_point: Point { row: 0, column: 5 },
        end_point: Point { row: 2, column: 0 },
    };
    let u = a.union(b);
    assert_eq!(u.start_byte, 2);
    assert_eq!(u.end_byte, 20);
    assert_eq!(u.start_point, Point { row: 0, column: 2 });
    assert_eq!(u.end_point, Point { row: 2, column: 0 });
    assert!(range_le(&a, &b));
    assert!(!range_le(&b, &a));
    let max = Range::max_value();
    assert_eq!(max.start_byte, usize::MAX);
    assert_eq!(max.end_byte, usize::MAX);
    let trimmed = b.before_last_character();
    assert_eq!(trimmed.start_byte, 19);
    assert_eq!(trimmed.end_byte, 19);
}

/// A plan pair whose ranges do not fit the buffers is rejected: the buffer
/// stays as it is, and the other pairs still apply.
#[test]
fn plan_rejects_out_of_bounds_pairs() {
    let zero = Point { row: 0, column: 0 };
    let span = |s: usize, e: usize| Range {
        start_byte: s,
        end_byte: e,
        start_point: zero,
        end_point: zero,
    };
    let mut code: Vec<u8> = b"hello".to_vec();
    let plan = ReversedInjectionsRanges(vec![
        (span(2, 99), span(0, 2)),  // destination end out of bounds: rejected
        (span(0, 2), span(3, 99)),  // source end out of bounds: rejected
        (span(5, 3), span(0, 1)),   // reversed destination: rejected
        (span(0, 1), span(0, 2)),   // fine: replaces the first byte with "AB"
    ]);
    plan.apply_injections(&mut code, b"ABCD");
    assert_eq!(code, b"ABello".to_vec());

    // The sentinel start appends; the sentinel end replaces to the end.
    let mut code: Vec<u8> = b"hello".to_vec();
    let plan = ReversedInjectionsRanges(vec![
        (Range::max_value(), span(0, 2)),
        (span(3, usize::MAX), span(2, 4)),
    ]);
    plan.apply_injections(&mut code, b"ABCD");
    assert_eq!(code, b"helCD".to_vec());
}

/// Malformed input is rejected before any replacement is computed.
#[test]
fn malformed_input_fails_fast() {
    let initial = b"fn a() {}\n";
    let broken = b"fn b( {}\n";
    let parser = CodeParser::new(initial).unwrap();
    assert!(parser.test_inject(broken).is_none());
    let parser_broken = CodeParser::new(broken).unwrap();
    assert!(parser_broken.test_inject(initial).is_none());
}

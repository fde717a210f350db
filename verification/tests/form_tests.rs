use std::sync::Arc;

use mistral_nvim::cursor::nvim_range::{FromNvimBound, NvimBound, OneIndexed};
use mistral_nvim::cursor::nvim_range_v2 as v2;
use mistral_nvim::cursor::range_impl::{ColRange as CColRange, RowRange as CRowRange};
use mistral_nvim::cursor::usize_impl::{Col, Row};
use mistral_nvim::form::fill::fill_form;
use mistral_nvim::form::row_col::{ColRange, RowRange};
use mistral_nvim::form::tabs::{Tab, Tabs};
use mistral_nvim::mistral::tools::{DefaultVariant, Description, Form, FormField, Name, RForm};

fn field(name: &str, description: &str, form: Form) -> FormField {
    FormField {
        name: Name(name.to_string()),
        description: Description(description.to_string()),
        form: Arc::new(form),
    }
}

fn form_eq(a: &Form, b: &Form) -> bool {
    match (a, b) {
        (Form::Struct(n1, d1, f1), Form::Struct(n2, d2, f2)) => {
            n1.0 == n2.0 && d1.0 == d2.0 && fields_eq(f1, f2)
        }
        (Form::Enum(n1, d1, v1, f1), Form::Enum(n2, d2, v2, f2)) => {
            n1.0 == n2.0 && d1.0 == d2.0 && v1.0 == v2.0 && fields_eq(f1, f2)
        }
        (Form::StructTuple(n1, d1, f1), Form::StructTuple(n2, d2, f2)) => {
            n1.0 == n2.0 && d1.0 == d2.0 && fields_eq(f1, f2)
        }
        (Form::List(a), Form::List(b)) => form_eq(a, b),
        (Form::Optional(a), Form::Optional(b)) => form_eq(a, b),
        (Form::Tuple(a), Form::Tuple(b)) => {
            a.len() == b.len() && a.iter().zip(b.iter()).all(|(x, y)| form_eq(x, y))
        }
        (Form::Mapping(a), Form::Mapping(b)) => form_eq(&a.0, &b.0) && form_eq(&a.1, &b.1),
        (Form::Boolean, Form::Boolean) => true,
        (Form::Float, Form::Float) => true,
        (Form::Integer, Form::Integer) => true,
        (Form::Str, Form::Str) => true,
        (Form::Unit, Form::Unit) => true,
        _ => false,
    }
}

fn fields_eq(a: &[FormField], b: &[FormField]) -> bool {
    a.len() == b.len()
        && a.iter().zip(b.iter()).all(|(x, y)| {
            x.name.0 == y.name.0 && x.description.0 == y.description.0 && form_eq(&x.form, &y.form)
        })
}

fn opt_form_eq(a: &Option<RForm>, b: &Option<RForm>) -> bool {
    match (a, b) {
        (Some(a), Some(b)) => form_eq(a, b),
        (None, None) => true,
        _ => false,
    }
}

fn tab_eq(a: &Tab, b: &Tab) -> bool {
    match (a, b) {
        (
            Tab::Single { row: r1, col: c1, form: f1 },
            Tab::Single { row: r2, col: c2, form: f2 },
        ) => r1 == r2 && c1 == c2 && form_eq(f1, f2),
        (
            Tab::Multi { row: r1, col: c1, form: f1, target: t1 },
            Tab::Multi { row: r2, col: c2, form: f2, target: t2 },
        ) => r1 == r2 && c1 == c2 && form_eq(f1, f2) && opt_form_eq(t1, t2),
        _ => false,
    }
}

fn tabs_eq(a: &Tabs, b: &Tabs) {
    assert_eq!(a.0.len(), b.0.len());
    for (t, e) in a.0.iter().zip(b.0.iter()) {
        assert!(tab_eq(t, e), "tab differs:\n{t:?}\nvs\n{e:?}");
    }
}

fn rows(n: usize) -> Row {
    Row(n)
}

fn cols(r: std::ops::Range<usize>) -> CColRange {
    CColRange::from_range(r.start, r.end)
}

fn rrange(r: std::ops::Range<usize>) -> CRowRange {
    CRowRange::from_range(r.start, r.end)
}

#[test]
fn test_insert() {
    let mut tabs = Tabs::new_single(vec![
        (rows(0), cols(0..1), Form::Str),
        (rows(1), cols(0..1), Form::Str),
        (rows(2), cols(0..1), Form::Str),
        (rows(3), cols(0..1), Form::Str),
    ]);
    let target = tabs.0.get(2).unwrap().form().clone();
    let new_tabs = Tabs::new_single(vec![
        (rows(0), cols(0..1), Form::Str),
        (rows(1), cols(0..1), Form::Str),
    ]);
    tabs.insert(&target, new_tabs, 2);
    let expected = Tabs::new_single(vec![
        (rows(0), cols(0..1), Form::Str),
        (rows(1), cols(0..1), Form::Str),
        (rows(2), cols(0..1), Form::Str),
        (rows(3), cols(0..1), Form::Str),
        (rows(4), cols(0..1), Form::Str),
        (rows(5), cols(0..1), Form::Str),
    ]);
    tabs_eq(&tabs, &expected);
}

fn multi_form() -> Form {
    let f = field("", "", Form::Str);
    Form::Enum(
        Name("".to_string()),
        Description("".to_string()),
        DefaultVariant("".to_string()),
        vec![f.clone(), f],
    )
}

#[test]
fn test_replace_tab_multi_range_no_change() {
    let multi = multi_form();

    let mut tabs = Tabs::empty();
    tabs.push_single_test(rows(0), cols(0..1), Form::Str);
    tabs.push_multi_test(rrange(1..4), cols(4..0), &multi, None);
    tabs.push_single_test(rows(2), cols(2..2), Form::Str);
    tabs.push_single_test(rows(3), cols(3..3), Form::Str);
    tabs.push_single_test(rows(5), cols(5..5), Form::Str);

    let target = tabs.0.get(1).unwrap().form().clone();
    let mut new_tabs = Tabs::empty();
    new_tabs.push_multi_test(rrange(0..3), cols(4..0), &multi, None);
    new_tabs.extend_single_test(vec![
        (rows(1), cols(0..1), Form::Str),
        (rows(2), cols(0..1), Form::Str),
    ]);
    assert!(Tabs::replace_tab_multi_range(&mut tabs, &target, new_tabs));

    let mut expected = Tabs::empty();
    expected.push_single_test(rows(0), cols(0..1), Form::Str);
    expected.push_multi_test(rrange(1..4), cols(4..5), &multi, Some(target));
    expected.push_single_test(rows(2), cols(0..1), Form::Str);
    expected.push_single_test(rows(3), cols(0..1), Form::Str);
    expected.push_single_test(rows(5), cols(5..5), Form::Str);

    tabs_eq(&tabs, &expected);
}

#[test]
fn test_replace_tab_multi_range() {
    let multi = multi_form();

    let mut tabs = Tabs::empty();
    tabs.push_single_test(rows(0), cols(8..9), Form::Str);
    tabs.push_multi_test(rrange(1..1), cols(4..5), &multi, None);
    tabs.push_single_test(rows(2), cols(5..6), Form::Str);

    let target = tabs.0.get(1).unwrap().form().clone();
    let mut new_tabs = Tabs::empty();
    new_tabs.push_multi_test(rrange(0..3), cols(0..1), &multi, None);
    new_tabs.extend_single_test(vec![
        (rows(1), cols(4..4), Form::Integer),
        (rows(2), cols(4..6), Form::Float),
    ]);

    assert!(Tabs::replace_tab_multi_range(&mut tabs, &target, new_tabs));

    let mut expected = Tabs::empty();
    expected.push_single_test(rows(0), cols(8..9), Form::Str);
    expected.push_multi_test(rrange(1..4), cols(4..5), &multi, Some(target));
    expected.push_single_test(rows(2), cols(4..4), Form::Integer);
    expected.push_single_test(rows(3), cols(4..6), Form::Float);
    expected.push_single_test(rows(3), cols(5..6), Form::Str);

    tabs_eq(&tabs, &expected);
}

#[test]
fn test_replace_tab_multi_range_not_first() {
    let multi = multi_form();

    let mut tabs = Tabs::empty();
    tabs.push_single_test(rows(0), cols(8..9), Form::Str);
    tabs.push_multi_test(rrange(1..1), cols(4..5), &multi, None);
    tabs.push_single_test(rows(2), cols(5..6), Form::Str);

    let target = tabs.0.get(1).unwrap().form().clone();
    let mut new_tabs = Tabs::empty();
    new_tabs.push_multi_test(rrange(2..5), cols(0..1), &multi, None);
    new_tabs.extend_single_test(vec![
        (rows(3), cols(4..4), Form::Integer),
        (rows(4), cols(4..6), Form::Float),
    ]);

    assert!(Tabs::replace_tab_multi_range(&mut tabs, &target, new_tabs));

    let mut expected = Tabs::empty();
    expected.push_single_test(rows(0), cols(8..9), Form::Str);
    expected.push_multi_test(rrange(1..4), cols(4..5), &multi, Some(target));
    expected.push_single_test(rows(2), cols(4..4), Form::Integer);
    expected.push_single_test(rows(3), cols(4..6), Form::Float);
    expected.push_single_test(rows(3), cols(5..6), Form::Str);

    tabs_eq(&tabs, &expected);
}

#[test]
fn test_replace_tab_multi_range_empty() {
    let multi = multi_form();

    let mut tabs = Tabs::empty();
    tabs.push_multi_test(rrange(1..1), cols(4..5), &multi, None);

    let target = tabs.0.get(0).unwrap().form().clone();
    let mut new_tabs = Tabs::empty();
    new_tabs.push_multi_test(rrange(2..5), cols(0..1), &multi, None);
    new_tabs.extend_single_test(vec![
        (rows(3), cols(4..4), Form::Integer),
        (rows(4), cols(4..6), Form::Float),
    ]);

    assert!(Tabs::replace_tab_multi_range(&mut tabs, &target, new_tabs));

    let mut expected = Tabs::empty();
    expected.push_multi_test(rrange(1..4), cols(4..5), &multi, Some(target));
    expected.push_single_test(rows(2), cols(4..4), Form::Integer);
    expected.push_single_test(rows(3), cols(4..6), Form::Float);

    tabs_eq(&tabs, &expected);
}

#[test]
fn row_contains() {
    let row = RowRange::from_range(1, 2);
    let row_range = RowRange::from_range(1, 2);
    assert!(row_range.contains(1));
    assert!(row_range.contains_row(mistral_nvim::form::row_col::Row(1)));
    assert!(row_range.contains_row(mistral_nvim::form::row_col::Row(2)));
    assert!(!row_range.contains_row(mistral_nvim::form::row_col::Row(3)));
    let row_range = row_range.inclusive();
    assert!(row_range.contains_row(mistral_nvim::form::row_col::Row(1)));
    assert!(row_range.contains_row(mistral_nvim::form::row_col::Row(2)));
    assert!(!row_range.contains_row(mistral_nvim::form::row_col::Row(3)));
    let row_range = row.exclusive();
    assert!(row_range.contains_row(mistral_nvim::form::row_col::Row(1)));
    assert!(!row_range.contains_row(mistral_nvim::form::row_col::Row(2)));
}

#[test]
fn row_start() {
    let row_range = RowRange::from_row(1);
    assert_eq!(row_range.start, mistral_nvim::form::row_col::Row(1));
    let row_range = row_range.inclusive();
    assert_eq!(row_range.start, mistral_nvim::form::row_col::Row(1));
}

#[test]
fn row_end() {
    let row_range = RowRange::from_row(1);
    assert_eq!(row_range.end, mistral_nvim::form::row_col::Row(1));
    let row_range = row_range.inclusive();
    assert_eq!(row_range.end, mistral_nvim::form::row_col::Row(1));
}

fn bound_one_indexed<B: FromNvimBound<OneIndexed>>(bound: NvimBound<OneIndexed>) -> B {
    B::from_nvim(bound)
}

#[test]
fn bound_row_into() {
    let num: Row = Row(2);
    let bound: NvimBound = num.into_nvim();
    assert_eq!(bound.value, 2);
    let bound: NvimBound<OneIndexed> = num.into_nvim();
    assert_eq!(bound.value, 3);
    let num: Row = bound_one_indexed(bound);
    assert_eq!(num, Row(2));
}

#[test]
fn bound_one_indexed_usize() {
    fn plop<ROW: FromNvimBound<OneIndexed>>() -> ROW {
        ROW::from_nvim(FromNvimBound::into_nvim(1))
    }
    let bound: NvimBound<OneIndexed> = FromNvimBound::into_nvim(1);
    assert_eq!(bound.value, 1);
    assert_eq!(bound.value(), 0);
    let bound: Row = plop();
    assert_eq!(bound.0, 0);
}

#[test]
fn bound_zero_indexed_usize() {
    fn plop<ROW: FromNvimBound<mistral_nvim::cursor::nvim_range::ZeroIndexed>>() -> ROW {
        ROW::from_nvim(FromNvimBound::into_nvim(1))
    }
    let bound: NvimBound = FromNvimBound::into_nvim(1);
    assert_eq!(bound.value, 1);
    assert_eq!(bound.value(), 1);
    let bound: Row = plop();
    assert_eq!(bound.0, 1);
}

#[test]
fn nvim_range_v2_bound_row_into() {
    let num: Row = Row(2);
    let bound: v2::NvimBound = v2::FromNvimBound::into_nvim(num);
    assert_eq!(bound.value, 2);
    let bound: v2::NvimBound<v2::OneIndexed> = v2::FromNvimBound::into_nvim(num);
    assert_eq!(bound.value, 3);
    let num: Row = v2::FromNvimBound::from_nvim(bound);
    assert_eq!(num, Row(2));
}

fn str_form() -> Form {
    Form::Str
}

fn enum_form() -> Form {
    Form::Enum(
        Name("Enum".to_string()),
        Description("Some enum".to_string()),
        DefaultVariant("".to_string()),
        vec![field("A", "A", Form::Unit), field("B", "B", Form::Unit)],
    )
}

fn struct_form() -> Form {
    Form::Struct(
        Name("Struct".to_string()),
        Description("Some struct".to_string()),
        vec![
            field("name", "Field name", str_form()),
            field("model", "Field model (enum)", enum_form()),
        ],
    )
}

#[test]
fn filled_form_struct() {
    let form: RForm = Arc::new(struct_form());
    let mut rows: Vec<String> = Vec::new();
    let mut tabs = Tabs::empty();
    fill_form(form, &mut rows, &mut tabs, 0);
    let content = rows.join("\n");
    assert_eq!(
        content,
        r##"Struct ( // Some struct
    // Field name
    name: "", // Str
    // Field model (enum)
    model: (), // Enum
)"##
    );
    let mut expected = Tabs::empty();
    expected.push_single(
        rows_at(2),
        CColRange::from_range_inclusive(10, 12),
        Arc::new(Form::Str),
    );
    expected.push_multi(
        CRowRange::from_range_inclusive(4, 4),
        CColRange::from_range_inclusive(11, 13),
        Arc::new(enum_form()),
    );
    tabs_eq(&tabs, &expected);
}

fn rows_at(n: usize) -> Row {
    Row(n)
}

#[test]
fn filled_form_struct_tuple() {
    let form: RForm = Arc::new(Form::StructTuple(
        Name("StructTuple".to_string()),
        Description("".to_string()),
        vec![
            field("", "Field name", str_form()),
            field("", "Field model (enum)", enum_form()),
        ],
    ));
    let mut rows: Vec<String> = Vec::new();
    let mut tabs = Tabs::empty();
    fill_form(form, &mut rows, &mut tabs, 0);
    let content = rows.join("\n");
    assert_eq!(
        content,
        r##"StructTuple (
    // Field name
    "", // Str
    // Field model (enum)
    (), // Enum
)"##
    );
    let mut expected = Tabs::empty();
    expected.push_single(
        rows_at(2),
        CColRange::from_range_inclusive(4, 6),
        Arc::new(Form::Str),
    );
    expected.push_multi(
        CRowRange::from_range_inclusive(4, 4),
        CColRange::from_range_inclusive(4, 6),
        Arc::new(enum_form()),
    );
    tabs_eq(&tabs, &expected);
}

#[test]
fn filled_form_imbriquee() {
    let form: RForm = Arc::new(Form::Struct(
        Name("StructImbriquee".to_string()),
        Description("Some struct imbriquée".to_string()),
        vec![
            field("name", "Field name", str_form()),
            field("s", "Field struct imbriquee", struct_form()),
        ],
    ));
    let mut rows: Vec<String> = Vec::new();
    let mut tabs = Tabs::empty();
    fill_form(form, &mut rows, &mut tabs, 0);
    let content = rows.join("\n");
    assert_eq!(
        content,
        r##"StructImbriquee ( // Some struct imbriquée
    // Field name
    name: "", // Str
    // Field struct imbriquee
    s: Struct ( // Some struct
        // Field name
        name: "", // Str
        // Field model (enum)
        model: (), // Enum
    ),
)"##
    );
    let mut expected = Tabs::empty();
    expected.push_single(
        rows_at(2),
        CColRange::from_range_inclusive(10, 12),
        Arc::new(Form::Str),
    );
    expected.push_single(
        rows_at(6),
        CColRange::from_range_inclusive(14, 16),
        Arc::new(Form::Str),
    );
    expected.push_multi(
        CRowRange::from_range_inclusive(8, 8),
        CColRange::from_range_inclusive(15, 17),
        Arc::new(enum_form()),
    );
    tabs_eq(&tabs, &expected);
}

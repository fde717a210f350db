//! Writing a form into buffer rows.
//!
//! `fill_form` lays a form out as editable text: one row per field, nested
//! records indented, each fillable span registered as a tab. The rows grow
//! downward only: a call appends rows or extends the last one, and never
//! touches rows or tabs that were already there.

use vstd::prelude::*;

use crate::cursor::range_impl::{ColRange, RowRange};
use crate::cursor::usize_impl::{Col, Row};
use crate::form::tabs::Tabs;
use crate::mistral::tools::{Form, FormField, RForm, rform_clone, rform_get};
use crate::text::push_char;

verus! {

/// Spaces per indentation step.
pub const INDENT: usize = 4;

/// Rows and tabs only grow: everything but the last old row stays put, and
/// every old tab stays put.
pub open spec fn grows_only(
    rows_old: Seq<String>,
    rows_new: Seq<String>,
    tabs_old: Seq<crate::form::tabs::Tab>,
    tabs_new: Seq<crate::form::tabs::Tab>,
) -> bool {
    &&& rows_new.len() >= rows_old.len()
    &&& forall|k: int| 0 <= k < rows_old.len() - 1 ==> rows_new[k] == rows_old[k]
    &&& tabs_new.len() >= tabs_old.len()
    &&& forall|k: int| 0 <= k < tabs_old.len() ==> tabs_new[k] == tabs_old[k]
}

/// A row of `n` spaces.
pub fn spaces(n: usize) -> (r: String)
    ensures
        r@.len() == n,
        forall|k: int| 0 <= k < n ==> r@[k] == ' ',
{
    let mut out = String::new();
    let mut i: usize = 0;
    while i < n
        invariant
            i <= n,
            out@.len() == i,
            forall|k: int| 0 <= k < i ==> out@[k] == ' ',
        decreases n - i,
    {
        push_char(&mut out, ' ');
        i = i + 1;
    }
    out
}

/// The indentation of one nesting depth, clamped at the widest row.
pub fn indent_spaces(indent: usize) -> (r: String)
    ensures
        forall|k: int| 0 <= k < r@.len() ==> r@[k] == ' ',
{
    let width = if indent <= usize::MAX / INDENT {
        INDENT * indent
    } else {
        usize::MAX
    };
    spaces(width)
}

/// Whether `s` holds the character `c`.
pub fn contains_char(s: &str, c: char) -> (r: bool)
    ensures
        r == (exists|k: int| 0 <= k < s@.len() && s@[k] == c),
{
    let len = s.unicode_len();
    let mut i: usize = 0;
    while i < len
        invariant
            i <= len,
            len == s@.len(),
            forall|k: int| 0 <= k < i ==> s@[k] != c,
        decreases len - i,
    {
        if s.get_char(i) == c {
            return true;
        }
        i = i + 1;
    }
    false
}

/// Prefixes a name holding a dash with `r#`, leaving other names alone: a
/// defensive escape for names that are not plain identifiers.
pub fn escape_snake_case(name: &mut String)
    ensures
        (exists|k: int| 0 <= k < old(name)@.len() && old(name)@[k] == '-') ==> final(name)@ == "r#"@
            + old(name)@,
        !(exists|k: int| 0 <= k < old(name)@.len() && old(name)@[k] == '-') ==> final(name)@ == old(
            name,
        )@,
{
    if contains_char(name.as_str(), '-') {
        let mut out = "r#".to_owned();
        out.append(name.as_str());
        *name = out;
    }
}

/// Writes a base value and its form comment onto the last row (or a first
/// row), and registers the span of the value as one tab.
pub fn fill_form_last(form: RForm, content: &str, rows: &mut Vec<String>, tabs: &mut Tabs)
    ensures
        grows_only(old(rows)@, final(rows)@, old(tabs).0@, final(tabs).0@),
        final(tabs).0@.len() == old(tabs).0@.len() + 1,
{
    fill_form_last_multi_or_single(form, content, rows, tabs, false)
}

/// As `fill_form_last`, but the tab is a block.
pub fn fill_form_last_multi(form: RForm, content: &str, rows: &mut Vec<String>, tabs: &mut Tabs)
    ensures
        grows_only(old(rows)@, final(rows)@, old(tabs).0@, final(tabs).0@),
        final(tabs).0@.len() == old(tabs).0@.len() + 1,
{
    fill_form_last_multi_or_single(form, content, rows, tabs, true)
}

/// Writes `content` onto the last row with a trailing comma and the form's
/// variant comment, registering its span as a single or a block tab.
pub fn fill_form_last_multi_or_single(
    form: RForm,
    content: &str,
    rows: &mut Vec<String>,
    tabs: &mut Tabs,
    multi: bool,
)
    ensures
        grows_only(old(rows)@, final(rows)@, old(tabs).0@, final(tabs).0@),
        final(tabs).0@.len() == old(tabs).0@.len() + 1,
{
    let len = content.unicode_len();
    let nb_rows = rows.len();
    let variant = rform_get(&form).variant_name();
    let (row_index, col_start, col_end) = if nb_rows > 0 {
        let mut row = rows.pop().unwrap();
        let comma: &'static str = if row.unicode_len() == 0 && nb_rows == 1 {
            ""
        } else {
            ","
        };
        let c1 = row.unicode_len();
        let c2 = crate::cursor::usize_impl::add_sat(c1, len);
        row.append(content);
        row.append(comma);
        row.append(" // ");
        row.append(variant);
        rows.push(row);
        (nb_rows - 1, c1, c2)
    } else {
        let mut row = content.to_owned();
        row.append(" // ");
        row.append(variant);
        rows.push(row);
        (0, 0, len)
    };
    let col = ColRange { start: Col(col_start), end: Col(col_end) };
    if multi {
        tabs.push_multi(
            RowRange { start: Row(row_index), end: Row(row_index) },
            col,
            form,
        );
    } else {
        tabs.push_single(Row(row_index), col, form);
    }
}

/// Lays the form out from the current position: base types take the last
/// row, records and enumerations open their own rows, one field per row,
/// nested one step deeper. Every fillable span lands in `tabs`.
pub fn fill_form(form: RForm, rows: &mut Vec<String>, tabs: &mut Tabs, indent: usize)
    ensures
        grows_only(old(rows)@, final(rows)@, old(tabs).0@, final(tabs).0@),
    decreases form,
{
    let form_copy = rform_clone(&form);
    let form_ref = rform_get(&form_copy);
    match form_ref {
        Form::Struct(name, description, fields) => {
            proof {
                assert(decreases_to!(form => *fields));
            }
            fill_struct_layout(name.0.as_str(), description.0.as_str(), fields, rows, tabs, indent);
        },
        Form::StructTuple(name, description, fields) => {
            proof {
                assert(decreases_to!(form => *fields));
            }
            fill_struct_layout(name.0.as_str(), description.0.as_str(), fields, rows, tabs, indent);
        },
        Form::Enum(_name, _description, default_variant, fields) => {
            if rows.len() == 0 {
                // A whole buffer of variants: one selectable block each.
                let mut i: usize = 0;
                while i < fields.len()
                    invariant
                        grows_only(old(rows)@, rows@, old(tabs).0@, tabs.0@),
                        decreases_to!(form => *fields),
                    decreases fields@.len() - i,
                {
                    proof {
                        assert(decreases_to!(*fields => fields@));
                        assert(decreases_to!(fields@ => fields@[i as int]));
                        assert(decreases_to!(fields@[i as int] => fields@[i as int].form));
                    }
                    let field = &fields[i];
                    let mut name = field.name.0.clone();
                    if default_variant.0.eq(&name) {
                        rows.push("// #[default]".to_owned());
                    }
                    escape_snake_case(&mut name);
                    if field.description.0.unicode_len() > 0 {
                        let mut line = "// ".to_owned();
                        line.append(field.description.0.as_str());
                        rows.push(line);
                    }
                    let row = rows.len();
                    let field_form = rform_get(&field.form);
                    if matches!(field_form, Form::Unit) {
                        let name_len = name.unicode_len();
                        rows.push(name);
                        tabs.push_multi(
                            RowRange { start: Row(row), end: Row(row) },
                            ColRange { start: Col(0), end: Col(name_len) },
                            rform_clone(&field.form),
                        );
                    } else {
                        let mut opening = name;
                        push_char(&mut opening, '(');
                        rows.push(opening);
                        fill_form(rform_clone(&field.form), rows, tabs, 1);
                        rows.push(")".to_owned());
                        let end = if rows.len() >= 1 {
                            rows.len() - 1
                        } else {
                            0
                        };
                        tabs.push_multi(
                            RowRange { start: Row(row), end: Row(end) },
                            ColRange { start: Col(0), end: Col(1) },
                            rform_clone(&field.form),
                        );
                    }
                    i = i + 1;
                }
            } else {
                // Inline: write the default variant, or an empty value.
                let mut default = default_variant.0.clone();
                escape_snake_case(&mut default);
                let mut found: Option<usize> = None;
                let mut j: usize = 0;
                while j < fields.len()
                    invariant
                        match found {
                            Some(f) => f < fields@.len(),
                            None => true,
                        },
                    decreases fields@.len() - j,
                {
                    if found.is_none() && fields[j].name.0.eq(&default_variant.0) {
                        found = Some(j);
                    }
                    j = j + 1;
                }
                let mut fallback = true;
                if let Some(j) = found {
                    if default.unicode_len() > 0 {
                        fallback = false;
                        proof {
                            assert(decreases_to!(form => *fields));
                            assert(decreases_to!(*fields => fields@));
                            assert(decreases_to!(fields@ => fields@[j as int]));
                            assert(decreases_to!(fields@[j as int] => fields@[j as int].form));
                        }
                        let variant_form = rform_get(&fields[j].form);
                        if matches!(variant_form, Form::Unit) {
                            fill_form_last_multi(rform_clone(&form), default.as_str(), rows, tabs);
                            tabs.push_target(rform_clone(&fields[j].form));
                        } else {
                            let width = if indent < usize::MAX {
                                indent + 1
                            } else {
                                indent
                            };
                            fill_form(rform_clone(&fields[j].form), rows, tabs, width);
                        }
                    }
                }
                if fallback {
                    fill_form_last_multi(rform_clone(&form), "()", rows, tabs);
                }
            }
        },
        Form::Tuple(elements) => {
            // Laid out as an anonymous record: unnamed fields, one per row.
            open_record_row("", "", rows, indent);
            let shifted = if indent < usize::MAX {
                indent + 1
            } else {
                indent
            };
            let mut i: usize = 0;
            while i < elements.len()
                invariant
                    grows_only(old(rows)@, rows@, old(tabs).0@, tabs.0@),
                    decreases_to!(form => *elements),
                decreases elements@.len() - i,
            {
                proof {
                    assert(decreases_to!(*elements => elements@));
                    assert(decreases_to!(elements@ => elements@[i as int]));
                }
                rows.push(indent_spaces(shifted));
                fill_form(rform_clone(&elements[i]), rows, tabs, shifted);
                i = i + 1;
            }
            close_record_row(rows, indent);
        },
        Form::Mapping(_entry) => {
            // No editable layout: maps are not collected through forms.
        },
        Form::List(_element) => {
            // No editable layout: lists are not collected through forms.
        },
        Form::Optional(element) => {
            proof {
                assert(decreases_to!(form => *element));
            }
            if rows.len() > 0 {
                let mut row = rows.pop().unwrap();
                row.append("None, // Option");
                rows.push(row);
            } else {
                rows.push("None".to_owned());
                let inner = rform_clone(element);
                let width = if indent < usize::MAX {
                    indent + 1
                } else {
                    indent
                };
                fill_form(inner, rows, tabs, width);
            }
        },
        Form::Str => {
            fill_form_last(form, "\"\"", rows, tabs);
        },
        Form::Integer => {
            fill_form_last(form, "0", rows, tabs);
        },
        Form::Float => {
            fill_form_last(form, "0.0", rows, tabs);
        },
        Form::Boolean => {
            fill_form_last(form, "false", rows, tabs);
        },
        Form::Unit => {
            fill_form_last(form, "()", rows, tabs);
        },
    }
}

/// Opens a record's layout: its name, an opening parenthesis, and the
/// description as a trailing comment.
fn open_record_row(name: &str, description: &str, rows: &mut Vec<String>, indent: usize)
    ensures
        final(rows)@.len() >= old(rows)@.len(),
        forall|k: int| 0 <= k < old(rows)@.len() - 1 ==> final(rows)@[k] == old(rows)@[k],
{
    let mut push = name.to_owned();
    if description.unicode_len() == 0 {
        push.append(" (");
    } else {
        push.append(" ( // ");
        push.append(description);
    }
    if rows.len() > 0 {
        let mut row = rows.pop().unwrap();
        row.append(push.as_str());
        rows.push(row);
    } else {
        let mut row = indent_spaces(indent);
        row.append(push.as_str());
        rows.push(row);
    }
}

/// Closes a record's layout: the closing parenthesis, with a comma below
/// the top level.
fn close_record_row(rows: &mut Vec<String>, indent: usize)
    ensures
        final(rows)@.len() == old(rows)@.len() + 1,
        forall|k: int| 0 <= k < old(rows)@.len() ==> final(rows)@[k] == old(rows)@[k],
{
    let mut line = indent_spaces(indent);
    if indent == 0 {
        line.append(")");
    } else {
        line.append("),");
    }
    rows.push(line);
}

/// Lays out the fields of a record: each description as a comment row, each
/// field on its own row, nested one step deeper.
fn fill_struct_layout(
    name: &str,
    description: &str,
    fields: &Vec<FormField>,
    rows: &mut Vec<String>,
    tabs: &mut Tabs,
    indent: usize,
)
    ensures
        grows_only(old(rows)@, final(rows)@, old(tabs).0@, final(tabs).0@),
    decreases fields,
{
    open_record_row(name, description, rows, indent);
    let shifted = if indent < usize::MAX {
        indent + 1
    } else {
        indent
    };
    let mut i: usize = 0;
    while i < fields.len()
        invariant
            grows_only(old(rows)@, rows@, old(tabs).0@, tabs.0@),
        decreases fields@.len() - i,
    {
        proof {
            assert(decreases_to!(*fields => fields@));
            assert(decreases_to!(fields@ => fields@[i as int]));
            assert(decreases_to!(fields@[i as int] => fields@[i as int].form));
        }
        let field = &fields[i];
        if field.description.0.unicode_len() > 0 {
            let mut line = indent_spaces(shifted);
            line.append("// ");
            line.append(field.description.0.as_str());
            rows.push(line);
        }
        if field.name.0.unicode_len() == 0 {
            rows.push(indent_spaces(shifted));
        } else {
            let mut line = indent_spaces(shifted);
            line.append(field.name.0.as_str());
            line.append(": ");
            rows.push(line);
        }
        fill_form(rform_clone(&field.form), rows, tabs, shifted);
        i = i + 1;
    }
    close_record_row(rows, indent);
}

} // verus!

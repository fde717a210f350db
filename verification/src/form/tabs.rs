//! Selection tabs of the form controller.
//!
//! A `Tab` is one selectable span of a form buffer, bound to the form it
//! collects: a single-row field or a multi-row block. A `Tabs` list keeps
//! each tab on its own starting row, sorted by row; two multi-row tabs never
//! overlap, though one may contain another.

use vstd::prelude::*;

use crate::cursor::range_impl::{ColRange, RowRange};
use crate::cursor::usize_impl::{Col, Row, shift_signed, spec_shift_signed};
use crate::mistral::tools::{Form, RForm, rform_clone, rform_ptr_eq};

verus! {

/// One selectable span and its form: a single-row field, or a multi-row
/// block with an optional target variant.
#[derive(Debug)]
pub enum Tab {
    Single { row: Row, col: ColRange, form: RForm },
    Multi { row: RowRange, col: ColRange, form: RForm, target: Option<RForm> },
}

/// The list of tabs of one form buffer.
#[derive(Debug)]
pub struct Tabs(pub Vec<Tab>);

impl Tab {
    /// The first row of the span.
    pub open spec fn spec_start_row(&self) -> Row {
        match self {
            Tab::Single { row, .. } => *row,
            Tab::Multi { row, .. } => row.start,
        }
    }

    /// The last row of the span.
    pub open spec fn spec_end_row(&self) -> Row {
        match self {
            Tab::Single { row, .. } => *row,
            Tab::Multi { row, .. } => row.end,
        }
    }

    /// The first column of the span.
    pub open spec fn spec_start_col(&self) -> Col {
        match self {
            Tab::Single { col, .. } => col.start,
            Tab::Multi { col, .. } => col.start,
        }
    }

    /// Whether the span is a multi-row block.
    pub open spec fn spec_is_multi(&self) -> bool {
        self is Multi
    }

    /// The block's target variant; a single-row field carries none.
    pub open spec fn spec_target(&self) -> Option<RForm> {
        match self {
            Tab::Single { .. } => None,
            Tab::Multi { target, .. } => *target,
        }
    }

    /// Whether the row falls on the span: the exact row of a single-row
    /// field, or between a block's bounds.
    pub open spec fn spec_contains_row(&self, row: Row) -> bool {
        match self {
            Tab::Single { row: r, .. } => r.0 == row.0,
            Tab::Multi { row: r, .. } => r.start.0 <= row.0 <= r.end.0,
        }
    }

    /// The first row of the span.
    pub fn start_row(&self) -> (r: Row)
        ensures
            r == self.spec_start_row(),
    {
        match self {
            Tab::Single { row, .. } => *row,
            Tab::Multi { row, .. } => row.start,
        }
    }

    /// The first column of the span.
    pub fn start_col(&self) -> (r: Col)
        ensures
            r == self.spec_start_col(),
    {
        match self {
            Tab::Single { col, .. } => col.start,
            Tab::Multi { col, .. } => col.start,
        }
    }

    /// The last row of the span.
    pub fn end_row(&self) -> (r: Row)
        ensures
            r == self.spec_end_row(),
    {
        match self {
            Tab::Single { row, .. } => *row,
            Tab::Multi { row, .. } => row.end,
        }
    }

    /// The last column of the span.
    pub fn end_col(&self) -> (r: Col)
        ensures
            match self {
                Tab::Single { col, .. } => r == col.end,
                Tab::Multi { col, .. } => r == col.end,
            },
    {
        match self {
            Tab::Single { col, .. } => col.end,
            Tab::Multi { col, .. } => col.end,
        }
    }

    /// Moves the span's last column, handing the old one back.
    pub fn set_end_col(&mut self, other: Col) -> (r: Col)
        ensures
            r == old(self).spec_end_col_value(),
            final(self).spec_end_col_value() == other,
            final(self).spec_start_row() == old(self).spec_start_row(),
            final(self).spec_end_row() == old(self).spec_end_row(),
            final(self).spec_start_col() == old(self).spec_start_col(),
            final(self).spec_form() == old(self).spec_form(),
            final(self).spec_target() == old(self).spec_target(),
            final(self).spec_is_multi() == old(self).spec_is_multi(),
    {
        match self {
            Tab::Single { col, .. } => {
                let prev = col.end;
                col.end = other;
                prev
            },
            Tab::Multi { col, .. } => {
                let prev = col.end;
                col.end = other;
                prev
            },
        }
    }

    /// The last column of the span.
    pub open spec fn spec_end_col_value(&self) -> Col {
        match self {
            Tab::Single { col, .. } => col.end,
            Tab::Multi { col, .. } => col.end,
        }
    }

    /// The form bound to the span.
    pub open spec fn spec_form(&self) -> RForm {
        match self {
            Tab::Single { form, .. } => *form,
            Tab::Multi { form, .. } => *form,
        }
    }

    /// The form bound to the span.
    pub fn form(&self) -> (r: &RForm)
        ensures
            *r == self.spec_form(),
    {
        match self {
            Tab::Single { form, .. } => form,
            Tab::Multi { form, .. } => form,
        }
    }

    /// Rebinds the span's form, handing the old one back.
    pub fn set_form(&mut self, other: &RForm) -> (r: RForm)
        ensures
            r == old(self).spec_form(),
            final(self).spec_form() == *other,
            final(self).spec_start_row() == old(self).spec_start_row(),
            final(self).spec_end_row() == old(self).spec_end_row(),
            final(self).spec_start_col() == old(self).spec_start_col(),
            final(self).spec_end_col_value() == old(self).spec_end_col_value(),
            final(self).spec_target() == old(self).spec_target(),
            final(self).spec_is_multi() == old(self).spec_is_multi(),
    {
        let other = rform_clone(other);
        match self {
            Tab::Single { form, .. } => {
                let prev = rform_clone(form);
                *form = other;
                prev
            },
            Tab::Multi { form, .. } => {
                let prev = rform_clone(form);
                *form = other;
                prev
            },
        }
    }

    /// The rows of the span.
    pub fn row_range(&self) -> (r: RowRange)
        ensures
            r.start == self.spec_start_row(),
            r.end == self.spec_end_row(),
    {
        match self {
            Tab::Single { row, .. } => RowRange { start: *row, end: *row },
            Tab::Multi { row, .. } => *row,
        }
    }

    /// Moves the span's rows, handing the old range back. A single-row span
    /// takes the new range's start.
    pub fn set_row_range(&mut self, other: RowRange) -> (r: RowRange)
        ensures
            r.start == old(self).spec_start_row(),
            (*old(self)) is Multi ==> r.end == old(self).spec_end_row(),
            (*old(self)) is Single ==> r.end == old(self).spec_start_row(),
            final(self).spec_start_row() == other.start,
            (*old(self)) is Multi ==> final(self).spec_end_row() == other.end,
            (*old(self)) is Single ==> final(self).spec_end_row() == other.start,
            final(self).spec_start_col() == old(self).spec_start_col(),
            final(self).spec_end_col_value() == old(self).spec_end_col_value(),
            final(self).spec_form() == old(self).spec_form(),
            final(self).spec_target() == old(self).spec_target(),
            final(self).spec_is_multi() == old(self).spec_is_multi(),
    {
        match self {
            Tab::Single { row, .. } => {
                let start = *row;
                *row = other.start;
                RowRange { start, end: start }
            },
            Tab::Multi { row, .. } => {
                let prev = *row;
                *row = other;
                prev
            },
        }
    }

    /// The columns of the span.
    pub fn col_range(&self) -> (r: ColRange)
        ensures
            r.start == self.spec_start_col(),
            r.end == self.spec_end_col_value(),
    {
        match self {
            Tab::Single { col, .. } => *col,
            Tab::Multi { col, .. } => *col,
        }
    }

    /// Moves the span's columns, handing the old range back.
    pub fn set_col_range(&mut self, other: ColRange) -> (r: ColRange)
        ensures
            r.start == old(self).spec_start_col(),
            r.end == old(self).spec_end_col_value(),
            final(self).spec_start_col() == other.start,
            final(self).spec_end_col_value() == other.end,
            final(self).spec_form() == old(self).spec_form(),
    {
        match self {
            Tab::Single { col, .. } => {
                let prev = *col;
                *col = other;
                prev
            },
            Tab::Multi { col, .. } => {
                let prev = *col;
                *col = other;
                prev
            },
        }
    }

    /// How many rows the span covers: one for a single-row field, the
    /// absolute row distance for a block.
    pub fn len_rows(&self) -> (r: usize)
        ensures
            match self {
                Tab::Single { .. } => r == 1,
                Tab::Multi { row, .. } => r == crate::form::row_col::spec_len_between(
                    row.start.0 as int,
                    row.end.0 as int,
                ),
            },
    {
        match self {
            Tab::Single { .. } => 1,
            Tab::Multi { row, .. } => row.len_abs(),
        }
    }

    /// Takes the other block's form as this block's target; anything else
    /// is left alone.
    pub fn set_target_from_multi_tab(&mut self, tab: &Tab)
        ensures
            ((*old(self)) is Multi && (*tab) is Multi) ==> final(self).spec_target() == Some(
                tab.spec_form(),
            ),
            !((*old(self)) is Multi && (*tab) is Multi) ==> *final(self) == *old(self),
            final(self).spec_is_multi() == old(self).spec_is_multi(),
            final(self).spec_form() == old(self).spec_form(),
            final(self).spec_start_row() == old(self).spec_start_row(),
            final(self).spec_end_row() == old(self).spec_end_row(),
            final(self).spec_start_col() == old(self).spec_start_col(),
            final(self).spec_end_col_value() == old(self).spec_end_col_value(),
    {
        let new_target = match tab {
            Tab::Multi { form, .. } => Some(rform_clone(form)),
            _ => None,
        };
        match (self, new_target) {
            (Tab::Multi { target, .. }, Some(t)) => {
                *target = Some(t);
            },
            _ => {},
        }
    }

    /// Sets this block's target; a single-row field is left alone.
    pub fn set_target(&mut self, new_target: RForm)
        ensures
            (*old(self)) is Multi ==> final(self).spec_target() == Some(new_target),
            (*old(self)) is Single ==> *final(self) == *old(self),
            final(self).spec_is_multi() == old(self).spec_is_multi(),
            final(self).spec_form() == old(self).spec_form(),
            final(self).spec_start_row() == old(self).spec_start_row(),
            final(self).spec_end_row() == old(self).spec_end_row(),
            final(self).spec_start_col() == old(self).spec_start_col(),
            final(self).spec_end_col_value() == old(self).spec_end_col_value(),
    {
        match self {
            Tab::Multi { target, .. } => {
                *target = Some(new_target);
            },
            _ => {},
        }
    }

    /// The span moved by `nb_rows` rows, saturating at the buffer's edges;
    /// columns, form and target stay as they are.
    pub fn shift(self, nb_rows: isize) -> (r: Tab)
        ensures
            r.spec_is_multi() == self.spec_is_multi(),
            r.spec_form() == self.spec_form(),
            r.spec_start_col() == self.spec_start_col(),
            r.spec_end_col_value() == self.spec_end_col_value(),
            r.spec_target() == self.spec_target(),
            r.spec_start_row().0 == spec_shift_signed(self.spec_start_row().0 as int, nb_rows as int),
            r.spec_end_row().0 == spec_shift_signed(self.spec_end_row().0 as int, nb_rows as int),
    {
        match self {
            Tab::Single { row, col, form } => Tab::Single {
                row: Row(shift_signed(row.0, nb_rows)),
                col,
                form,
            },
            Tab::Multi { row, col, form, target } => Tab::Multi {
                row: RowRange {
                    start: Row(shift_signed(row.start.0, nb_rows)),
                    end: Row(shift_signed(row.end.0, nb_rows)),
                },
                col,
                form,
                target,
            },
        }
    }

    /// An equal span bound to the same form handle.
    pub fn duplicate(&self) -> (r: Tab)
        ensures
            r == *self,
    {
        match self {
            Tab::Single { row, col, form } => Tab::Single {
                row: *row,
                col: *col,
                form: rform_clone(form),
            },
            Tab::Multi { row, col, form, target } => Tab::Multi {
                row: *row,
                col: *col,
                form: rform_clone(form),
                target: match target {
                    Some(t) => Some(rform_clone(t)),
                    None => None,
                },
            },
        }
    }

    /// Whether the cursor's row falls on the span.
    pub fn contains_cursor(&self, cursor: (Row, Col)) -> (r: bool)
        ensures
            r == self.spec_contains_row(cursor.0),
    {
        let (row, _col) = cursor;
        match self {
            Tab::Single { row: r, .. } => r.0 == row.0,
            Tab::Multi { row: r, .. } => r.contains(row),
        }
    }

    /// Whether this span contains the other, comparing rows only; a span
    /// never contains the tab bound to its own form handle. The handle test
    /// rests on pointer identity, so only the row containment is promised.
    pub fn contains_tab(&self, tab: &Tab) -> (r: bool)
        ensures
            r ==> self.spec_contains_row(tab.spec_start_row()) && self.spec_contains_row(
                tab.spec_end_row(),
            ),
    {
        if rform_ptr_eq(tab.form(), self.form()) {
            return false;
        }
        self.contains_cursor((tab.start_row(), tab.start_col()))
            && self.contains_cursor((tab.end_row(), tab.end_col()))
    }
}

/// Whether a tab starts inside the row range, both bounds included.
pub open spec fn spec_tab_in_rows(t: Tab, rows: RowRange) -> bool {
    rows.start.0 <= t.spec_start_row().0 <= rows.end.0
}

/// The tabs starting inside the row range, in order.
pub open spec fn spec_filter_rows(tabs: Seq<Tab>, rows: RowRange) -> Seq<Tab>
    decreases tabs.len(),
{
    if tabs.len() == 0 {
        Seq::empty()
    } else {
        let rest = spec_filter_rows(tabs.drop_last(), rows);
        if spec_tab_in_rows(tabs.last(), rows) {
            rest.push(tabs.last())
        } else {
            rest
        }
    }
}

/// The block tabs, in order.
pub open spec fn spec_filter_multi(tabs: Seq<Tab>) -> Seq<Tab>
    decreases tabs.len(),
{
    if tabs.len() == 0 {
        Seq::empty()
    } else {
        let rest = spec_filter_multi(tabs.drop_last());
        if tabs.last() is Multi {
            rest.push(tabs.last())
        } else {
            rest
        }
    }
}

/// The single-row tabs, in order.
pub open spec fn spec_filter_single(tabs: Seq<Tab>) -> Seq<Tab>
    decreases tabs.len(),
{
    if tabs.len() == 0 {
        Seq::empty()
    } else {
        let rest = spec_filter_single(tabs.drop_last());
        if tabs.last() is Single {
            rest.push(tabs.last())
        } else {
            rest
        }
    }
}

/// One tab standing for another, every row moved by `d` and clamped into
/// the buffer; columns, form and target unchanged.
pub open spec fn spec_shifted_by(new_tab: Tab, old_tab: Tab, d: int) -> bool {
    &&& new_tab.spec_is_multi() == old_tab.spec_is_multi()
    &&& new_tab.spec_form() == old_tab.spec_form()
    &&& new_tab.spec_start_col() == old_tab.spec_start_col()
    &&& new_tab.spec_end_col_value() == old_tab.spec_end_col_value()
    &&& new_tab.spec_target() == old_tab.spec_target()
    &&& new_tab.spec_start_row().0 == spec_shift_signed(old_tab.spec_start_row().0 as int, d)
    &&& new_tab.spec_end_row().0 == spec_shift_signed(old_tab.spec_end_row().0 as int, d)
}

/// A row distance clamped into `isize`.
pub open spec fn spec_clamp_isize(n: int) -> int {
    if n <= isize::MAX {
        n
    } else {
        isize::MAX as int
    }
}

/// What `insert` leaves behind when the target sits at `idx`: the tabs
/// before it unchanged, then the inserted tabs moved onto the target's row,
/// then the target and everything after it moved down by `nb_rows`.
pub open spec fn spec_insert_shape(
    old_tabs: Seq<Tab>,
    new_tabs: Seq<Tab>,
    inserted: Seq<Tab>,
    nb_rows: usize,
    idx: int,
) -> bool {
    &&& 0 <= idx < old_tabs.len()
    &&& new_tabs.len() == old_tabs.len() + inserted.len()
    &&& (forall|k: int| 0 <= k < idx ==> new_tabs[k] == old_tabs[k])
    &&& (forall|k: int|
        0 <= k < inserted.len() ==> spec_shifted_by(
            #[trigger] new_tabs[idx + k],
            inserted[k],
            spec_clamp_isize(old_tabs[idx].spec_start_row().0 as int),
        ))
    &&& (forall|k: int|
        idx <= k < old_tabs.len() ==> spec_shifted_by(
            #[trigger] new_tabs[inserted.len() + k],
            old_tabs[k],
            spec_clamp_isize(nb_rows as int),
        ))
}

/// The index the forward scan picks from `i` on: while `skipping`, tabs
/// starting above the position pass by; the first tab after that starting
/// below the row, or past the column, wins.
pub open spec fn spec_next_tab_from(tabs: Seq<Tab>, row: Row, col: Col, i: int, skipping: bool) -> Option<
    int,
>
    decreases tabs.len() - i,
{
    if i < 0 || i >= tabs.len() {
        None
    } else if skipping && tabs[i].spec_start_row().0 < row.0 {
        spec_next_tab_from(tabs, row, col, i + 1, true)
    } else if tabs[i].spec_start_row().0 > row.0 || tabs[i].spec_start_col().0 > col.0 {
        Some(i)
    } else {
        spec_next_tab_from(tabs, row, col, i + 1, false)
    }
}

/// The index the backward scan picks from `i` down: while `skipping`, tabs
/// starting below the position pass by; the first tab after that starting
/// above the row, or before the column, wins.
pub open spec fn spec_prev_tab_from(tabs: Seq<Tab>, row: Row, col: Col, i: int, skipping: bool) -> Option<
    int,
>
    decreases i + 1,
{
    if i < 0 || i >= tabs.len() {
        None
    } else if skipping && tabs[i].spec_start_row().0 > row.0 {
        spec_prev_tab_from(tabs, row, col, i - 1, true)
    } else if tabs[i].spec_start_row().0 < row.0 || tabs[i].spec_start_col().0 < col.0 {
        Some(i)
    } else {
        spec_prev_tab_from(tabs, row, col, i - 1, false)
    }
}

impl Tabs {
    /// An empty list.
    pub fn empty() -> (r: Tabs)
        ensures
            r.0@.len() == 0,
    {
        Tabs(Vec::new())
    }

    /// Appends one single-row tab per entry, in entry order, leaving the
    /// existing tabs as they are.
    pub fn extend_single(&mut self, v: Vec<(Row, ColRange, RForm)>)
        ensures
            final(self).0@.len() == old(self).0@.len() + v@.len(),
            forall|k: int| 0 <= k < old(self).0@.len() ==> final(self).0@[k] == old(self).0@[k],
            forall|k: int|
                0 <= k < v@.len() ==> final(self).0@[old(self).0@.len() + k] == (Tab::Single {
                    row: (#[trigger] v@[k]).0,
                    col: v@[k].1,
                    form: v@[k].2,
                }),
    {
        let mut i: usize = 0;
        while i < v.len()
            invariant
                i <= v@.len(),
                self.0@.len() == old(self).0@.len() + i,
                forall|k: int| 0 <= k < old(self).0@.len() ==> self.0@[k] == old(self).0@[k],
                forall|k: int|
                    0 <= k < i ==> self.0@[old(self).0@.len() + k] == (Tab::Single {
                        row: (#[trigger] v@[k]).0,
                        col: v@[k].1,
                        form: v@[k].2,
                    }),
            decreases v@.len() - i,
        {
            let (row, col, form) = (v[i].0, v[i].1, rform_clone(&v[i].2));
            self.0.push(Tab::Single { row, col, form });
            i = i + 1;
        }
    }

    /// Appends one single-row tab per entry, wrapping each bare form. The
    /// wrapped form passes through a derived clone, of which nothing is
    /// known, so only each new tab's kind and spans are stated.
    pub fn extend_single_test(&mut self, v: Vec<(Row, ColRange, Form)>)
        ensures
            final(self).0@.len() == old(self).0@.len() + v@.len(),
            forall|k: int| 0 <= k < old(self).0@.len() ==> final(self).0@[k] == old(self).0@[k],
            forall|k: int|
                0 <= k < v@.len() ==> (#[trigger] final(self).0@[old(self).0@.len() + k]) is Single
                    && final(self).0@[old(self).0@.len() + k].spec_start_row() == v@[k].0
                    && final(self).0@[old(self).0@.len() + k].spec_start_col() == v@[k].1.start
                    && final(self).0@[old(self).0@.len() + k].spec_end_col_value() == v@[k].1.end,
    {
        let mut i: usize = 0;
        while i < v.len()
            invariant
                i <= v@.len(),
                self.0@.len() == old(self).0@.len() + i,
                forall|k: int| 0 <= k < old(self).0@.len() ==> self.0@[k] == old(self).0@[k],
                forall|k: int|
                    0 <= k < i ==> (#[trigger] self.0@[old(self).0@.len() + k]) is Single
                        && self.0@[old(self).0@.len() + k].spec_start_row() == v@[k].0
                        && self.0@[old(self).0@.len() + k].spec_start_col() == v@[k].1.start
                        && self.0@[old(self).0@.len() + k].spec_end_col_value() == v@[k].1.end,
            decreases v@.len() - i,
        {
            let row = v[i].0;
            let col = v[i].1;
            let form = std::sync::Arc::new(v[i].2.clone());
            self.0.push(Tab::Single { row, col, form });
            i = i + 1;
        }
    }

    /// A list of single-row tabs, one per entry.
    pub fn new_single(v: Vec<(Row, ColRange, Form)>) -> (r: Tabs)
        ensures
            r.0@.len() == v@.len(),
    {
        let mut tabs = Tabs::empty();
        tabs.extend_single_test(v);
        tabs
    }

    /// Appends one single-row tab.
    pub fn push_single(&mut self, row: Row, col: ColRange, form: RForm)
        ensures
            final(self).0@ == old(self).0@.push(Tab::Single { row, col, form }),
    {
        self.0.push(Tab::Single { row, col, form });
    }

    /// Appends one single-row tab around a bare form.
    pub fn push_single_test(&mut self, row: Row, col: ColRange, form: Form)
        ensures
            final(self).0@.len() == old(self).0@.len() + 1,
            forall|k: int| 0 <= k < old(self).0@.len() ==> final(self).0@[k] == old(self).0@[k],
            final(self).0@.last() is Single,
            final(self).0@.last().spec_start_row() == row,
            final(self).0@.last().spec_start_col() == col.start,
            final(self).0@.last().spec_end_col_value() == col.end,
    {
        self.0.push(Tab::Single { row, col, form: std::sync::Arc::new(form) });
    }

    /// Appends one block tab with no target yet.
    pub fn push_multi(&mut self, row: RowRange, col: ColRange, form: RForm)
        ensures
            final(self).0@ == old(self).0@.push(Tab::Multi { row, col, form, target: None }),
    {
        self.0.push(Tab::Multi { row, col, form, target: None });
    }

    /// Appends one block tab around a bare form, with the given target.
    pub fn push_multi_test(&mut self, row: RowRange, col: ColRange, form: &Form, target: Option<RForm>)
        ensures
            final(self).0@.len() == old(self).0@.len() + 1,
            forall|k: int| 0 <= k < old(self).0@.len() ==> final(self).0@[k] == old(self).0@[k],
            final(self).0@.last() is Multi,
            final(self).0@.last().spec_start_row() == row.start,
            final(self).0@.last().spec_end_row() == row.end,
            final(self).0@.last().spec_start_col() == col.start,
            final(self).0@.last().spec_end_col_value() == col.end,
            final(self).0@.last().spec_target() == target,
    {
        let form = std::sync::Arc::new(form.clone());
        self.0.push(Tab::Multi { row, col, form, target });
    }

    /// Sets the target of the last tab, when it is a block; everything else
    /// about the list, and a single-row last tab, stays as it was.
    pub fn push_target(&mut self, new_target: RForm)
        ensures
            final(self).0@.len() == old(self).0@.len(),
            forall|k: int| 0 <= k < old(self).0@.len() - 1 ==> final(self).0@[k] == old(self).0@[k],
            old(self).0@.len() > 0 && old(self).0@.last() is Multi ==> final(self).0@.last() is Multi
                && final(self).0@.last().spec_target() == Some(new_target)
                && final(self).0@.last().spec_form() == old(self).0@.last().spec_form()
                && final(self).0@.last().spec_start_row() == old(self).0@.last().spec_start_row()
                && final(self).0@.last().spec_end_row() == old(self).0@.last().spec_end_row()
                && final(self).0@.last().spec_start_col() == old(self).0@.last().spec_start_col()
                && final(self).0@.last().spec_end_col_value() == old(
                self,
            ).0@.last().spec_end_col_value(),
            old(self).0@.len() > 0 && old(self).0@.last() is Single ==> final(self).0@ == old(
                self,
            ).0@,
    {
        if let Some(mut tab) = self.0.pop() {
            tab.set_target(new_target);
            self.0.push(tab);
        }
    }

    /// The index of the tab bound to the given form handle, scanning from
    /// the front. The handle test rests on pointer identity, which the
    /// contract cannot see; a hit at least holds the same form by value.
    pub fn find(&self, form: &RForm) -> (r: Option<usize>)
        ensures
            match r {
                Some(i) => i < self.0@.len() && self.0@[i as int].spec_form() == *form,
                None => true,
            },
    {
        let mut i: usize = 0;
        while i < self.0.len()
            decreases self.0@.len() - i,
        {
            if rform_ptr_eq(self.0[i].form(), form) {
                return Some(i);
            }
            i = i + 1;
        }
        None
    }

    /// The tab bound to the given form handle.
    pub fn find_tab(&self, form: &RForm) -> (r: Option<&Tab>) {
        match self.find(form) {
            Some(i) => Some(&self.0[i]),
            None => None,
        }
    }

    /// The tabs whose starting row falls in `row`, in their original order.
    pub fn filter_by_range(&self, row: &RowRange) -> (r: Tabs)
        ensures
            r.0@ == spec_filter_rows(self.0@, *row),
    {
        let mut out = Tabs::empty();
        let mut i: usize = 0;
        proof {
            assert(self.0@.take(0) =~= Seq::<Tab>::empty());
        }
        while i < self.0.len()
            invariant
                i <= self.0@.len(),
                out.0@ == spec_filter_rows(self.0@.take(i as int), *row),
            decreases self.0@.len() - i,
        {
            proof {
                assert(self.0@.take(i + 1).drop_last() =~= self.0@.take(i as int));
                assert(self.0@.take(i + 1).last() == self.0@[i as int]);
            }
            if row.contains(self.0[i].start_row()) {
                out.0.push(self.0[i].duplicate());
            }
            i = i + 1;
        }
        proof {
            assert(self.0@.take(self.0@.len() as int) =~= self.0@);
        }
        out
    }

    /// Replaces the tab bound to `target` by the given tabs, shifted onto
    /// the replaced tab's row; the target and every tab after it move down
    /// by `nb_rows`. A missing target leaves the list unchanged; the lookup
    /// itself goes by pointer identity, so which index was hit is stated
    /// existentially.
    pub fn insert(&mut self, target: &RForm, tabs: Tabs, nb_rows: usize)
        ensures
            (exists|idx: int|
                #[trigger] spec_insert_shape(old(self).0@, final(self).0@, tabs.0@, nb_rows, idx))
                || final(self).0@ == old(self).0@,
    {
        let index = match self.find(target) {
            Some(i) => i,
            None => {
                return;
            },
        };
        let ghost inserted_view = tabs.0@;
        let row_target = self.0[index].start_row();
        let shift_by: isize = if row_target.0 <= isize::MAX as usize {
            row_target.0 as isize
        } else {
            isize::MAX
        };
        let mut new_tabs: Vec<Tab> = Vec::new();
        let mut i: usize = 0;
        while i < index
            invariant
                index < self.0@.len(),
                i <= index,
                new_tabs@.len() == i,
                forall|k: int| 0 <= k < i ==> new_tabs@[k] == self.0@[k],
            decreases index - i,
        {
            new_tabs.push(self.0[i].duplicate());
            i = i + 1;
        }
        let mut j: usize = 0;
        let inserted = tabs.0;
        while j < inserted.len()
            invariant
                index < self.0@.len(),
                j <= inserted@.len(),
                inserted@ == inserted_view,
                shift_by as int == spec_clamp_isize(self.0@[index as int].spec_start_row().0 as int),
                new_tabs@.len() == index + j,
                forall|k: int| 0 <= k < index ==> new_tabs@[k] == self.0@[k],
                forall|k: int|
                    0 <= k < j ==> spec_shifted_by(
                        #[trigger] new_tabs@[index + k],
                        inserted@[k],
                        spec_clamp_isize(self.0@[index as int].spec_start_row().0 as int),
                    ),
            decreases inserted.len() - j,
        {
            new_tabs.push(inserted[j].duplicate().shift(shift_by));
            j = j + 1;
        }
        let nb: isize = if nb_rows <= isize::MAX as usize {
            nb_rows as isize
        } else {
            isize::MAX
        };
        let mut k: usize = index;
        while k < self.0.len()
            invariant
                index <= k <= self.0@.len(),
                index < self.0@.len(),
                inserted@ == inserted_view,
                nb as int == spec_clamp_isize(nb_rows as int),
                new_tabs@.len() == inserted@.len() + k,
                forall|m: int| 0 <= m < index ==> new_tabs@[m] == self.0@[m],
                forall|m: int|
                    0 <= m < inserted@.len() ==> spec_shifted_by(
                        #[trigger] new_tabs@[index + m],
                        inserted@[m],
                        spec_clamp_isize(self.0@[index as int].spec_start_row().0 as int),
                    ),
                forall|m: int|
                    index <= m < k ==> spec_shifted_by(
                        #[trigger] new_tabs@[inserted@.len() + m],
                        self.0@[m],
                        spec_clamp_isize(nb_rows as int),
                    ),
            decreases self.0@.len() - k,
        {
            new_tabs.push(self.0[k].duplicate().shift(nb));
            k = k + 1;
        }
        proof {
            assert(spec_insert_shape(
                self.0@,
                new_tabs@,
                inserted_view,
                nb_rows,
                index as int,
            ));
        }
        self.0 = new_tabs;
    }

    /// The next tab after the cursor position: tabs starting above the
    /// position pass by, the first one starting below the row or past the
    /// column wins, and the scan wraps to the first tab.
    pub fn next_tab(&self, current_row: Row, current_col: Col) -> (r: Option<Tab>)
        ensures
            match spec_next_tab_from(self.0@, current_row, current_col, 0, true) {
                Some(i) => r == Some(self.0@[i]),
                None => if self.0@.len() > 0 {
                    r == Some(self.0@[0])
                } else {
                    r is None
                },
            },
    {
        let mut skipping = true;
        let mut i: usize = 0;
        while i < self.0.len()
            invariant
                i <= self.0@.len(),
                spec_next_tab_from(self.0@, current_row, current_col, 0, true)
                    == spec_next_tab_from(self.0@, current_row, current_col, i as int, skipping),
            decreases self.0@.len() - i,
        {
            let tab = &self.0[i];
            if skipping && tab.start_row().0 < current_row.0 {
                i = i + 1;
                continue;
            }
            skipping = false;
            if tab.start_row().0 > current_row.0 || tab.start_col().0 > current_col.0 {
                return Some(tab.duplicate());
            }
            i = i + 1;
        }
        if self.0.len() > 0 {
            Some(self.0[0].duplicate())
        } else {
            None
        }
    }

    /// The previous tab before the cursor position: tabs starting below the
    /// position pass by, the first one starting above the row or before the
    /// column wins, and the scan wraps to the last tab.
    pub fn previous_tab(&self, current_row: Row, current_col: Col) -> (r: Option<Tab>)
        ensures
            match spec_prev_tab_from(
                self.0@,
                current_row,
                current_col,
                self.0@.len() - 1,
                true,
            ) {
                Some(i) => r == Some(self.0@[i]),
                None => if self.0@.len() > 0 {
                    r == Some(self.0@[self.0@.len() - 1])
                } else {
                    r is None
                },
            },
    {
        let mut skipping = true;
        let mut i: usize = self.0.len();
        while i > 0
            invariant
                i <= self.0@.len(),
                spec_prev_tab_from(self.0@, current_row, current_col, self.0@.len() - 1, true)
                    == spec_prev_tab_from(self.0@, current_row, current_col, i - 1, skipping),
            decreases i,
        {
            let tab = &self.0[i - 1];
            if skipping && tab.start_row().0 > current_row.0 {
                i = i - 1;
                continue;
            }
            skipping = false;
            if tab.start_row().0 < current_row.0 || tab.start_col().0 < current_col.0 {
                return Some(tab.duplicate());
            }
            i = i - 1;
        }
        let n = self.0.len();
        if n > 0 {
            Some(self.0[n - 1].duplicate())
        } else {
            None
        }
    }

    /// The block tabs not contained by the first kept block. The drop test
    /// compares against the first kept tab alone, and its handle test rests
    /// on pointer identity, so only the kind of every kept tab is promised.
    pub fn multi_tabs_first_level(&self) -> (r: Tabs)
        ensures
            forall|k: int| 0 <= k < r.0@.len() ==> (#[trigger] r.0@[k]).spec_is_multi(),
    {
        let multi_tabs = self.multi_tabs();
        let mut first_level = Tabs::empty();
        let mut previous: Option<usize> = None;
        let mut i: usize = 0;
        while i < multi_tabs.0.len()
            invariant
                forall|k: int|
                    0 <= k < first_level.0@.len() ==> (#[trigger] first_level.0@[k]).spec_is_multi(),
                forall|k: int|
                    0 <= k < multi_tabs.0@.len() ==> (#[trigger] multi_tabs.0@[k]).spec_is_multi(),
                match previous {
                    Some(p) => p < first_level.0@.len(),
                    None => true,
                },
            decreases multi_tabs.0@.len() - i,
        {
            let keep = match previous {
                None => true,
                Some(p) => !first_level.0[p].contains_tab(&multi_tabs.0[i]),
            };
            if keep {
                first_level.0.push(multi_tabs.0[i].duplicate());
                previous = Some(0);
            }
            i = i + 1;
        }
        first_level
    }

    /// The block tabs, in their original order.
    pub fn multi_tabs(&self) -> (r: Tabs)
        ensures
            r.0@ == spec_filter_multi(self.0@),
            forall|k: int| 0 <= k < r.0@.len() ==> (#[trigger] r.0@[k]).spec_is_multi(),
    {
        let mut out = Tabs::empty();
        let mut i: usize = 0;
        proof {
            assert(self.0@.take(0) =~= Seq::<Tab>::empty());
        }
        while i < self.0.len()
            invariant
                i <= self.0@.len(),
                out.0@ == spec_filter_multi(self.0@.take(i as int)),
                forall|k: int| 0 <= k < out.0@.len() ==> (#[trigger] out.0@[k]).spec_is_multi(),
            decreases self.0@.len() - i,
        {
            proof {
                assert(self.0@.take(i + 1).drop_last() =~= self.0@.take(i as int));
                assert(self.0@.take(i + 1).last() == self.0@[i as int]);
            }
            if matches!(&self.0[i], Tab::Multi { .. }) {
                out.0.push(self.0[i].duplicate());
            }
            i = i + 1;
        }
        proof {
            assert(self.0@.take(self.0@.len() as int) =~= self.0@);
        }
        out
    }

    /// The single-row tabs, in their original order.
    pub fn single_tabs(&self) -> (r: Tabs)
        ensures
            r.0@ == spec_filter_single(self.0@),
            forall|k: int| 0 <= k < r.0@.len() ==> !(#[trigger] r.0@[k]).spec_is_multi(),
    {
        let mut out = Tabs::empty();
        let mut i: usize = 0;
        proof {
            assert(self.0@.take(0) =~= Seq::<Tab>::empty());
        }
        while i < self.0.len()
            invariant
                i <= self.0@.len(),
                out.0@ == spec_filter_single(self.0@.take(i as int)),
                forall|k: int| 0 <= k < out.0@.len() ==> !(#[trigger] out.0@[k]).spec_is_multi(),
            decreases self.0@.len() - i,
        {
            proof {
                assert(self.0@.take(i + 1).drop_last() =~= self.0@.take(i as int));
                assert(self.0@.take(i + 1).last() == self.0@[i as int]);
            }
            if !matches!(&self.0[i], Tab::Multi { .. }) {
                out.0.push(self.0[i].duplicate());
            }
            i = i + 1;
        }
        proof {
            assert(self.0@.take(self.0@.len() as int) =~= self.0@);
        }
        out
    }

    /// Replaces the block bound to `target` by the first block of
    /// `children`: the target takes the child block's rows and target, the
    /// remaining children move in under it, the tabs the old block contained
    /// leave, and everything after it shifts by the row-count difference.
    /// `false` when the target is not a block or the children are empty.
    pub fn replace_tab_multi_range(parents: &mut Tabs, target: &RForm, children: Tabs) -> (r: bool) {
        let index = match parents.find(target) {
            Some(i) => i,
            None => {
                return false;
            },
        };
        if !matches!(&parents.0[index], Tab::Multi { .. }) {
            return false;
        }
        if children.0.len() == 0 {
            return false;
        }
        let tab_multi_clone = parents.0[index].duplicate();

        // Move the children onto the target's rows.
        let child_start = children.0[0].start_row().0;
        let parent_start = parents.0[index].start_row().0;
        let down: isize = if parent_start <= isize::MAX as usize {
            parent_start as isize
        } else {
            isize::MAX
        };
        let up: isize = if child_start <= isize::MAX as usize {
            (0 as isize) - (child_start as isize)
        } else {
            isize::MIN + 1
        };
        let net: isize = if up <= 0 && down >= 0 {
            // Both magnitudes fit an isize, so the sum does too.
            up + down
        } else {
            0
        };
        let mut shifted: Vec<Tab> = Vec::new();
        let mut i: usize = 0;
        let children_vec = children.0;
        while i < children_vec.len()
            invariant
                i <= children_vec@.len(),
                shifted@.len() == i,
            decreases children_vec.len() - i,
        {
            shifted.push(children_vec[i].duplicate().shift(net));
            i = i + 1;
        }

        // The first child is the block that replaces the target.
        let child_multi = shifted[0].duplicate();
        if !matches!(&child_multi, Tab::Multi { .. }) {
            return false;
        }

        // Resize the target using the new block.
        let child_rows = child_multi.len_rows();
        let parent_rows = parents.0[index].len_rows();
        let shift_after: isize = if child_rows <= isize::MAX as usize && parent_rows
            <= isize::MAX as usize {
            (child_rows as isize) - (parent_rows as isize)
        } else {
            0
        };
        let new_row_range = child_multi.row_range();
        let start_col = parents.0[index].start_col();
        let child_end_col = child_multi.end_col();
        let mut tab = parents.0.remove(index);
        let _ = tab.set_row_range(new_row_range);
        let _ = tab.set_end_col(Col(crate::cursor::usize_impl::add_sat(start_col.0, child_end_col.0)));
        tab.set_target_from_multi_tab(&child_multi);
        parents.0.insert(index, tab);

        // Rebuild: tabs before the target, the target, the inner children,
        // then the tabs after it, dropping what the old block contained and
        // shifting the tail.
        let mut new_tabs: Vec<Tab> = Vec::new();
        let mut k: usize = 0;
        let n = parents.0.len();
        while k < n
            invariant
                n == parents.0@.len(),
                index < n,
            decreases n - k,
        {
            if k != index && tab_multi_clone.contains_tab(&parents.0[k]) {
                k = k + 1;
                continue;
            }
            if k <= index {
                new_tabs.push(parents.0[k].duplicate());
            } else {
                new_tabs.push(parents.0[k].duplicate().shift(shift_after));
            }
            if k == index {
                let mut j: usize = 1;
                while j < shifted.len()
                    decreases shifted.len() - j,
                {
                    new_tabs.push(shifted[j].duplicate());
                    j = j + 1;
                }
            }
            k = k + 1;
        }
        parents.0 = new_tabs;
        true
    }
}

} // verus!

//! Tracking of concurrent buffer modifications, grouped for one undo step.
//!
//! Each running task owns one modification: a successive insertion growing
//! at a cursor, or a single line being replaced. The tracker keeps the
//! modifications sorted by their current position and shifts the later ones
//! whenever an earlier one grows, so that every task keeps writing at the
//! right place. The actual buffer writes belong to the surrounding system:
//! the tracker only says where each write lands.

use vstd::prelude::*;

use crate::buffer::UndotreeData;
use crate::cursor::Cursor;
use crate::cursor::usize_impl::{Col, Row, add_sat};
use crate::notify::Notification;

verus! {

/// Why a tracker call was refused.
#[derive(Debug)]
pub enum BMError {
    AlreadyCreated,
    InsertionInMiddleOfAnother,
    IdNotInitialised,
    RowOutOfBounds,
    ColOutOfBounds,
    ExpectedInMiddleOfInsertion,
    ExistsWithAnotherId(usize),
    WrongReplacementRow(usize, Row, Row),
    Other(Notification),
}

/// A successive insertion: where it started, and the span it has grown to.
#[derive(Debug, Clone)]
pub struct InsertionSuccessive {
    pub id: usize,
    pub start_initial: Cursor,
    pub start_final: Cursor,
    pub end_final: Cursor,
}

/// A line being replaced over and over: its row then and now, and the line's
/// length then and now.
#[derive(Debug, Clone, Copy)]
pub struct ReplacementLine {
    pub id: usize,
    pub in_middle_of_insertion: bool,
    pub row_initial: Row,
    pub row_final: Row,
    pub length_initial: usize,
    pub length_final: usize,
}

/// One tracked modification.
#[derive(Debug, Clone)]
pub enum Modification {
    InsertionSuccessive(InsertionSuccessive),
    ReplacementLine(ReplacementLine),
}

impl Modification {
    /// Whether an undo merge passes this modification over: a replacement in
    /// the middle of an insertion is already covered by the insertion.
    pub fn skip_merge(&self) -> (r: bool)
        ensures
            match self {
                Modification::InsertionSuccessive(_) => r == false,
                Modification::ReplacementLine(rep) => r == rep.in_middle_of_insertion,
            },
    {
        match self {
            Modification::InsertionSuccessive(_) => false,
            Modification::ReplacementLine(rep) => rep.in_middle_of_insertion,
        }
    }

    /// Whether this is the insertion of the given task.
    pub fn is_insertion_with_id(&self, id: usize) -> (r: bool)
        ensures
            r == match self {
                Modification::InsertionSuccessive(ins) => ins.id == id,
                Modification::ReplacementLine(_) => false,
            },
    {
        match self {
            Modification::InsertionSuccessive(ins) => ins.id == id,
            Modification::ReplacementLine(_) => false,
        }
    }

    /// Whether this is the replacement of the given task.
    pub fn is_replacement_with_id(&self, id: usize) -> (r: bool)
        ensures
            r == match self {
                Modification::InsertionSuccessive(_) => false,
                Modification::ReplacementLine(rep) => rep.id == id,
            },
    {
        match self {
            Modification::InsertionSuccessive(_) => false,
            Modification::ReplacementLine(rep) => rep.id == id,
        }
    }

    /// The owning task.
    pub fn id(&self) -> (r: usize)
        ensures
            r == match self {
                Modification::InsertionSuccessive(ins) => ins.id,
                Modification::ReplacementLine(rep) => rep.id,
            },
    {
        match self {
            Modification::InsertionSuccessive(ins) => ins.id,
            Modification::ReplacementLine(rep) => rep.id,
        }
    }

    /// Where the modification started, in the buffer as it was.
    pub fn start_initial(&self) -> (r: Cursor)
        ensures
            match self {
                Modification::InsertionSuccessive(ins) => r == ins.start_initial,
                Modification::ReplacementLine(rep) => r == Cursor { row: rep.row_initial, col: Col(0) },
            },
    {
        match self {
            Modification::InsertionSuccessive(ins) => ins.start_initial,
            Modification::ReplacementLine(rep) => Cursor { row: rep.row_initial, col: Col(0) },
        }
    }

    /// Where the modification starts, in the buffer as it is.
    pub fn start_final(&self) -> (r: Cursor)
        ensures
            match self {
                Modification::InsertionSuccessive(ins) => r == ins.start_final,
                Modification::ReplacementLine(rep) => r == Cursor { row: rep.row_final, col: Col(0) },
            },
    {
        match self {
            Modification::InsertionSuccessive(ins) => ins.start_final,
            Modification::ReplacementLine(rep) => Cursor { row: rep.row_final, col: Col(0) },
        }
    }

    /// Where the modification ended, in the buffer as it was.
    pub fn end_initial(&self) -> (r: Cursor)
        ensures
            match self {
                Modification::InsertionSuccessive(ins) => r == ins.start_initial,
                Modification::ReplacementLine(rep) => r == Cursor {
                    row: rep.row_initial,
                    col: Col(rep.length_initial),
                },
            },
    {
        match self {
            Modification::InsertionSuccessive(ins) => ins.start_initial,
            Modification::ReplacementLine(rep) => Cursor {
                row: rep.row_initial,
                col: Col(rep.length_initial),
            },
        }
    }

    /// Where the modification ends, in the buffer as it is.
    pub fn end_final(&self) -> (r: Cursor)
        ensures
            match self {
                Modification::InsertionSuccessive(ins) => r == ins.end_final,
                Modification::ReplacementLine(rep) => r == Cursor {
                    row: rep.row_final,
                    col: Col(rep.length_final),
                },
            },
    {
        match self {
            Modification::InsertionSuccessive(ins) => ins.end_final,
            Modification::ReplacementLine(rep) => Cursor {
                row: rep.row_final,
                col: Col(rep.length_final),
            },
        }
    }

    /// Moves this modification out of the way of an earlier one that grew by
    /// `diff_rows` rows and, on the grown row itself, by `diff_cols`
    /// columns. A replacement inside an insertion moves with the insertion
    /// and stays put here.
    pub fn shift(&mut self, before_modif_final: &Cursor, diff_rows: usize, diff_cols: usize) {
        let before = before_modif_final;
        match self {
            Modification::InsertionSuccessive(ins) => {
                if ins.start_final.row.0 == before.row.0 {
                    ins.start_final.col = Col(add_sat(ins.start_final.col.0, diff_cols));
                    ins.start_initial.col = Col(add_sat(ins.start_initial.col.0, diff_cols));
                }
                ins.start_final.row = Row(add_sat(ins.start_final.row.0, diff_rows));
                ins.start_initial.row = Row(add_sat(ins.start_initial.row.0, diff_rows));
                if ins.end_final.row.0 == before.row.0 {
                    ins.end_final.col = Col(add_sat(ins.end_final.col.0, diff_cols));
                }
                ins.end_final.row = Row(add_sat(ins.end_final.row.0, diff_rows));
            },
            Modification::ReplacementLine(rep) => {
                if !rep.in_middle_of_insertion {
                    rep.row_initial = Row(add_sat(rep.row_initial.0, diff_rows));
                    rep.row_final = Row(add_sat(rep.row_final.0, diff_rows));
                }
            },
        }
    }
}

/// The tracker of one buffer's grouped modifications.
pub struct BufferModifierGroupedUndo {
    pub undotree_initial: UndotreeData,
    pub running_insertions_ids: Vec<usize>,
    pub running_replacements_ids: Vec<usize>,
    pub modifications: Vec<Modification>,
}

/// Whether `ids` holds `id`.
fn ids_contains(ids: &Vec<usize>, id: usize) -> (r: bool)
    ensures
        r == ids@.contains(id),
{
    let mut i: usize = 0;
    while i < ids.len()
        invariant
            i <= ids@.len(),
            forall|k: int| 0 <= k < i ==> ids@[k] != id,
        decreases ids@.len() - i,
    {
        if ids[i] == id {
            return true;
        }
        i = i + 1;
    }
    false
}

/// Removes every occurrence of `id`.
fn ids_remove(ids: &mut Vec<usize>, id: usize)
    ensures
        forall|k: int| 0 <= k < final(ids)@.len() ==> final(ids)@[k] != id,
{
    let mut out: Vec<usize> = Vec::new();
    let mut i: usize = 0;
    while i < ids.len()
        invariant
            i <= ids@.len(),
            forall|k: int| 0 <= k < out@.len() ==> out@[k] != id,
        decreases ids@.len() - i,
    {
        if ids[i] != id {
            out.push(ids[i]);
        }
        i = i + 1;
    }
    *ids = out;
}

impl BufferModifierGroupedUndo {
    /// A fresh tracker over a buffer whose undo tree stood at
    /// `undotree_initial`.
    pub fn new(undotree_initial: UndotreeData) -> (r: BufferModifierGroupedUndo)
        ensures
            r.undotree_initial == undotree_initial,
            r.modifications@.len() == 0,
            r.running_insertions_ids@.len() == 0,
            r.running_replacements_ids@.len() == 0,
    {
        BufferModifierGroupedUndo {
            undotree_initial,
            running_insertions_ids: Vec::new(),
            running_replacements_ids: Vec::new(),
            modifications: Vec::new(),
        }
    }

    /// Registers a successive insertion at `cursor`, keeping the
    /// modifications sorted by position. Starting a second insertion with
    /// the same task, or one in the middle of another insertion, is refused.
    /// The cursor must already be concrete: the surrounding system resolves
    /// the end-of-buffer and end-of-line ceilings before calling in.
    pub fn start_insertion_successive(&mut self, id: usize, cursor: Cursor) -> (r: Result<
        (),
        BMError,
    >) {
        if ids_contains(&self.running_insertions_ids, id) {
            return Err(BMError::AlreadyCreated);
        }
        let mut index: usize = 0;
        let mut place: Option<usize> = None;
        let mut i: usize = 0;
        while i < self.modifications.len()
            invariant
                i <= self.modifications@.len(),
                index <= i,
                match place {
                    Some(p) => p <= self.modifications@.len(),
                    None => true,
                },
            decreases self.modifications@.len() - i,
        {
            let modif = &self.modifications[i];
            if modif.is_insertion_with_id(id) {
                self.running_insertions_ids.push(id);
                return Ok(());
            }
            if place.is_none() {
                index = index + 1;
                let start = modif.start_final();
                if start.before(&cursor) {
                    // Keep scanning: the new insertion comes later.
                } else if cursor.before(&start) {
                    index = index - 1;
                    place = Some(index);
                } else {
                    // The exact position is already taken by another task.
                    return Err(BMError::InsertionInMiddleOfAnother);
                }
            }
            i = i + 1;
        }
        let at = match place {
            Some(p) => p,
            None => index,
        };
        let at = if at <= self.modifications.len() {
            at
        } else {
            self.modifications.len()
        };
        self.running_insertions_ids.push(id);
        self.modifications.insert(
            at,
            Modification::InsertionSuccessive(
                InsertionSuccessive {
                    id,
                    start_initial: cursor,
                    start_final: cursor,
                    end_final: cursor,
                },
            ),
        );
        Ok(())
    }

    /// Registers a replacement of the line at `row_initial`, keeping the
    /// modifications sorted. A replacement landing inside a running
    /// insertion is marked as riding that insertion; landing on another
    /// task's replacement is refused with the other task's id.
    pub fn start_replacement_line(&mut self, id: usize, row_initial: Row, length_initial: usize) -> (r:
        Result<(), BMError>) {
        let mut i: usize = 0;
        while i < self.modifications.len()
            invariant
                i <= self.modifications@.len(),
            decreases self.modifications@.len() - i,
        {
            if self.modifications[i].is_replacement_with_id(id) {
                self.running_replacements_ids.push(id);
                return Ok(());
            }
            i = i + 1;
        }
        let mut index: usize = 0;
        let mut in_middle_of_insertion = false;
        let mut j: usize = 0;
        let mut placed = false;
        while j < self.modifications.len()
            invariant
                j <= self.modifications@.len(),
                index <= self.modifications@.len(),
            decreases self.modifications@.len() - j,
        {
            if !placed {
                let modif = &self.modifications[j];
                let start = modif.start_final();
                let end = modif.end_final();
                if end.row.0 < row_initial.0 {
                    // Keep scanning: the replacement comes later.
                    index = j + 1;
                } else if row_initial.0 < start.row.0 {
                    index = j;
                    placed = true;
                } else {
                    match modif {
                        Modification::InsertionSuccessive(_) => {
                            index = j + 1;
                            in_middle_of_insertion = true;
                            placed = true;
                        },
                        Modification::ReplacementLine(rep) => {
                            let other = rep.id;
                            if other == id {
                                self.running_replacements_ids.push(id);
                                return Ok(());
                            }
                            return Err(BMError::ExistsWithAnotherId(other));
                        },
                    }
                }
            }
            j = j + 1;
        }
        let at = index;
        self.running_replacements_ids.push(id);
        self.modifications.insert(
            at,
            Modification::ReplacementLine(
                ReplacementLine {
                    id,
                    in_middle_of_insertion,
                    row_final: row_initial,
                    row_initial,
                    length_initial,
                    length_final: length_initial,
                },
            ),
        );
        Ok(())
    }

    /// Books `lines` onto the task's insertion: the insertion's end moves
    /// past the new text, every later modification shifts out of the way,
    /// and the position where the surrounding system must splice the text
    /// comes back. An unknown task is refused.
    pub fn insert(&mut self, id: usize, lines: &Vec<String>) -> (r: Result<Cursor, BMError>) {
        let nb_rows = if lines.len() >= 1 {
            lines.len() - 1
        } else {
            0
        };
        let nb_columns = if lines.len() >= 1 {
            lines[lines.len() - 1].as_str().unicode_len()
        } else {
            0
        };
        match self.insertion_successive(id, nb_rows, nb_columns) {
            Some(cursor) => Ok(cursor),
            None => Err(BMError::IdNotInitialised),
        }
    }

    /// Books one more write of the task's replaced line: the line's length
    /// is brought up to date and, when the replacement rides an insertion,
    /// the insertion's end column moves with it. The row and length to
    /// write come back. A row other than the replacement's current row is
    /// refused.
    pub fn replace_line(&mut self, id: usize, row: Row, line_len: usize) -> (r: Result<
        (Row, usize),
        BMError,
    >) {
        let mut prev_ins: Option<usize> = None;
        let mut i: usize = 0;
        let n = self.modifications.len();
        while i < n
            invariant
                i <= n,
                n == self.modifications@.len(),
                match prev_ins {
                    Some(p) => p < n,
                    None => true,
                },
            decreases n - i,
        {
            let is_target = self.modifications[i].id() == id;
            if is_target {
                match &self.modifications[i] {
                    Modification::ReplacementLine(rep) => {
                        let rep = *rep;
                        if row.0 != rep.row_final.0 {
                            return Err(BMError::WrongReplacementRow(id, rep.row_final, row));
                        }
                        let mut updated = rep;
                        updated.length_final = line_len;
                        let _ = self.modifications.remove(i);
                        self.modifications.insert(i, Modification::ReplacementLine(updated));
                        if rep.in_middle_of_insertion {
                            match prev_ins {
                                Some(p) => {
                                    let grew = line_len >= rep.length_final;
                                    let diff = if grew {
                                        line_len - rep.length_final
                                    } else {
                                        rep.length_final - line_len
                                    };
                                    self.adjust_insertion_end(p, rep.row_final, grew, diff);
                                },
                                None => {
                                    return Err(BMError::ExpectedInMiddleOfInsertion);
                                },
                            }
                        }
                        return Ok((rep.row_final, line_len));
                    },
                    Modification::InsertionSuccessive(_) => {
                        prev_ins = Some(i);
                    },
                }
            } else {
                if matches!(&self.modifications[i], Modification::InsertionSuccessive(_)) {
                    prev_ins = Some(i);
                }
            }
            i = i + 1;
        }
        Err(BMError::IdNotInitialised)
    }

    /// Moves the end column of the insertion at `at` by `diff`, when the
    /// replaced row is the insertion's last.
    fn adjust_insertion_end(&mut self, at: usize, row: Row, grew: bool, diff: usize)
        requires
            at < old(self).modifications@.len(),
    {
        let modif = self.modifications.remove(at);
        let modif = match modif {
            Modification::InsertionSuccessive(mut ins) => {
                if ins.end_final.row.0 == row.0 {
                    ins.end_final.col = if grew {
                        Col(add_sat(ins.end_final.col.0, diff))
                    } else {
                        Col(crate::cursor::usize_impl::sub_sat(ins.end_final.col.0, diff))
                    };
                }
                Modification::InsertionSuccessive(ins)
            },
            other => other,
        };
        self.modifications.insert(at, modif);
    }

    /// Grows the task's insertion by `nb_rows` rows and, on its last row,
    /// to column `nb_column`; every modification after it shifts out of the
    /// way. Hands back where the new text starts. `None` for an unknown
    /// task.
    pub fn insertion_successive(&mut self, id: usize, nb_rows: usize, nb_column: usize) -> (r:
        Option<Cursor>) {
        let n = self.modifications.len();
        let mut target: Option<usize> = None;
        let mut i: usize = 0;
        while i < n
            invariant
                i <= n,
                n == self.modifications@.len(),
                match target {
                    Some(t) => t < n,
                    None => true,
                },
            decreases n - i,
        {
            if target.is_none() && self.modifications[i].is_insertion_with_id(id) {
                target = Some(i);
            }
            i = i + 1;
        }
        let t = match target {
            Some(t) => t,
            None => {
                return None;
            },
        };
        let modif = self.modifications.remove(t);
        let (modif, before, diff_cols) = match modif {
            Modification::InsertionSuccessive(mut ins) => {
                let before = ins.end_final;
                if nb_rows == 0 {
                    ins.end_final.col = Col(add_sat(ins.end_final.col.0, nb_column));
                } else {
                    ins.end_final.row = Row(add_sat(ins.end_final.row.0, nb_rows));
                    ins.end_final.col = Col(nb_column);
                }
                let diff_cols = if ins.end_final.col.0 >= before.col.0 {
                    ins.end_final.col.0 - before.col.0
                } else {
                    0
                };
                (Modification::InsertionSuccessive(ins), before, diff_cols)
            },
            other => {
                // The scan only stops on an insertion.
                (other, Cursor::zero(), 0)
            },
        };
        self.modifications.insert(t, modif);
        let mut k: usize = t + 1;
        while k < self.modifications.len()
            invariant
                t < k,
            decreases self.modifications@.len() - k,
        {
            let mut shifted = self.modifications.remove(k);
            shifted.shift(&before, nb_rows, diff_cols);
            self.modifications.insert(k, shifted);
            k = k + 1;
        }
        Some(before)
    }

    /// Marks the given tasks finished; `true` when nothing is running any
    /// more.
    pub fn ids_finished(&mut self, ids: &Vec<usize>) -> (r: bool) {
        let mut result = false;
        let mut i: usize = 0;
        while i < ids.len()
            decreases ids@.len() - i,
        {
            result = self.id_finished(ids[i]);
            i = i + 1;
        }
        if ids.len() == 0 {
            false
        } else {
            result
        }
    }

    /// Marks one task finished; `true` when nothing is running any more.
    pub fn id_finished(&mut self, id: usize) -> (r: bool)
        ensures
            r == (final(self).running_insertions_ids@.len() == 0
                && final(self).running_replacements_ids@.len() == 0),
    {
        ids_remove(&mut self.running_insertions_ids, id);
        ids_remove(&mut self.running_replacements_ids, id);
        self.running_insertions_ids.len() == 0 && self.running_replacements_ids.len() == 0
    }
}

} // verus!

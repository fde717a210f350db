//! The envelopes exchanged between the editor side and the completion side.

use vstd::prelude::*;

use crate::buffer::{BufferData, Selection};
use crate::cursor::{Col, Cursor};
use crate::mistral::completion::ChatRequest;
use crate::mistral::message::Role;
use crate::mistral::stream::StreamResponse;
use crate::mistral::tools::ToolCall;
use crate::notify::NotifyLevel;

verus! {

/// The handle of one editor buffer.
pub type BufferHandle = i32;

/// The index of one message of a chat.
pub type MsgIndex = usize;

/// Which task an envelope belongs to: a fill-in-the-middle task of a buffer,
/// or one message of a chat.
#[derive(Debug, Clone, Copy, PartialEq, Eq, Structural)]
pub enum IdMessage {
    FIM(BufferHandle, usize),
    Chat(BufferHandle, MsgIndex),
}

/// An envelope travelling from the completion side to the editor side.
pub struct MistralEnveloppe {
    pub id: IdMessage,
    pub message: MistralMessage,
}

/// What the completion side tells the editor.
pub enum MistralMessage {
    InitializeTask(Cursor),
    UpdateContent(Vec<String>),
    UpdateRole(Role),
    RunTool(Vec<ToolCall>),
    FinalizeTask(StreamResponse),
    Notify { message: String, level: NotifyLevel },
}

impl MistralEnveloppe {
    /// A notification envelope at the given level.
    pub fn notify(id: IdMessage, level: NotifyLevel, message: String) -> (r: MistralEnveloppe)
        ensures
            r.id == id,
            match r.message {
                MistralMessage::Notify { message: m, level: l } => m@ == message@ && l == level,
                _ => false,
            },
    {
        MistralEnveloppe { id, message: MistralMessage::Notify { message, level } }
    }

    /// An error notification envelope.
    pub fn notify_error(id: IdMessage, message: String) -> (r: MistralEnveloppe)
        ensures
            r.id == id,
            match r.message {
                MistralMessage::Notify { message: m, level: l } => m@ == message@ && l
                    == NotifyLevel::Error,
                _ => false,
            },
    {
        MistralEnveloppe::notify(id, NotifyLevel::Error, message)
    }

    /// A warning notification envelope.
    pub fn notify_warn(id: IdMessage, message: String) -> (r: MistralEnveloppe)
        ensures
            r.id == id,
            match r.message {
                MistralMessage::Notify { message: m, level: l } => m@ == message@ && l
                    == NotifyLevel::Warn,
                _ => false,
            },
    {
        MistralEnveloppe::notify(id, NotifyLevel::Warn, message)
    }
}

/// An envelope travelling from the editor side to the completion side.
pub struct NvimEnveloppe {
    pub id: IdMessage,
    pub message: NvimMessage,
}

/// What the editor asks of the completion side.
pub enum NvimMessage {
    Abort,
    FimCursorLine(Normal),
    FimFunction(Normal),
    FimVisual(Visual),
    Chat(ChatRequest),
}

/// A request raised from normal mode: the buffer snapshot alone.
pub struct Normal {
    pub data: BufferData,
}

/// A request raised from visual mode: the buffer snapshot and the selection.
pub struct Visual {
    pub data: BufferData,
    pub selection: Selection,
}

/// The smaller of two offsets.
pub open spec fn spec_min2(a: int, b: int) -> int {
    if a <= b {
        a
    } else {
        b
    }
}

/// The `k`-th selected line, cut at the selection's columns: the last line
/// keeps `end_col + 1` characters (at most its length), then the first
/// drops `start_col` (at most its length), so a single selected line takes
/// both cuts in that order.
pub open spec fn spec_selected_line(
    content: Seq<String>,
    from: int,
    to: int,
    start_col: int,
    end_col: int,
    k: int,
) -> Seq<char> {
    let l = content[from + k]@;
    let l1 = if k == to - from - 1 {
        l.take(spec_min2(end_col + 1, l.len() as int))
    } else {
        l
    };
    if k == 0 {
        l1.skip(spec_min2(start_col, l1.len() as int))
    } else {
        l1
    }
}

/// The selected lines from index `k` on, joined by line breaks.
pub open spec fn spec_selected_text(
    content: Seq<String>,
    from: int,
    to: int,
    start_col: int,
    end_col: int,
    k: int,
) -> Seq<char>
    decreases to - from - k,
{
    if k < 0 || k >= to - from {
        Seq::empty()
    } else {
        (if k > 0 {
            seq!['\n']
        } else {
            Seq::<char>::empty()
        }) + spec_selected_line(content, from, to, start_col, end_col, k) + spec_selected_text(
            content,
            from,
            to,
            start_col,
            end_col,
            k + 1,
        )
    }
}

proof fn lemma_selected_join(
    lines: Seq<String>,
    content: Seq<String>,
    from: int,
    to: int,
    start_col: int,
    end_col: int,
    k: int,
)
    requires
        lines.len() == to - from,
        forall|j: int|
            0 <= j < lines.len() ==> (#[trigger] lines[j])@ == spec_selected_line(
                content,
                from,
                to,
                start_col,
                end_col,
                j,
            ),
    ensures
        spec_join_lines(lines, k) == spec_selected_text(content, from, to, start_col, end_col, k),
    decreases lines.len() - k,
{
    if 0 <= k < lines.len() {
        lemma_selected_join(lines, content, from, to, start_col, end_col, k + 1);
    }
}

impl Visual {
    /// The selected lines joined by line breaks, the first line cut at the
    /// selection's start column and the last at its end column (character-
    /// wise), with the cursor left at the end of the selection. An empty
    /// buffer or an empty row span gives nothing back.
    pub fn get_selected_content(&self) -> (r: (String, Cursor))
        ensures
            (self.data.content@.len() == 0 || spec_min2(
                self.selection.end.row.0 as int,
                self.data.content@.len() as int,
            ) <= self.selection.start.row.0) ==> r.0@ == Seq::<char>::empty() && r.1.row.0 == 0
                && r.1.col.0 == 0,
            (self.data.content@.len() > 0 && self.selection.start.row.0 < spec_min2(
                self.selection.end.row.0 as int,
                self.data.content@.len() as int,
            )) ==> r.0@ == spec_selected_text(
                self.data.content@,
                self.selection.start.row.0 as int,
                spec_min2(self.selection.end.row.0 as int, self.data.content@.len() as int),
                self.selection.start.col.0 as int,
                self.selection.end.col.0 as int,
                0,
            ) && r.1.row == self.selection.end.row && r.1.col.0 as int == spec_min2(
                self.selection.end.col.0 + 1,
                self.data.content@[spec_min2(
                    self.selection.end.row.0 as int,
                    self.data.content@.len() as int,
                ) - 1]@.len() as int,
            ),
    {
        let content = &self.data.content;
        let start = self.selection.start;
        let end = self.selection.end;
        if content.len() == 0 {
            return (String::new(), Cursor::zero());
        }
        let from = start.row.0;
        let to = if end.row.0 <= content.len() {
            end.row.0
        } else {
            content.len()
        };
        if from >= to {
            return (String::new(), Cursor::zero());
        }
        let mut lines: Vec<String> = Vec::new();
        let mut i: usize = from;
        while i < to
            invariant
                from <= i <= to,
                to <= content@.len(),
                lines@.len() == i - from,
                forall|j: int| 0 <= j < i - from ==> (#[trigger] lines@[j])@ == content@[from + j]@,
            decreases to - i,
        {
            lines.push(content[i].clone());
            i = i + 1;
        }
        let last_index = lines.len() - 1;

        // Cut the last line first, in case only one line is selected.
        let last_line = lines[last_index].clone();
        let last_chars = last_line.as_str().unicode_len();
        let wanted = crate::cursor::usize_impl::add_sat(end.col.0, 1);
        let len_last_col = if wanted <= last_chars {
            wanted
        } else {
            last_chars
        };
        let cut_last = last_line.as_str().substring_char(0, len_last_col).to_owned();
        proof {
            assert(cut_last@ =~= content@[to - 1]@.take(
                spec_min2(end.col.0 + 1, content@[to - 1]@.len() as int),
            ));
        }
        let ghost lines_a = lines@;
        let _ = lines.remove(last_index);
        lines.insert(last_index, cut_last);
        proof {
            assert(lines@.len() == lines_a.len());
            assert(forall|j: int| 0 <= j < lines_a.len() - 1 ==> lines@[j] == lines_a[j]);
        }

        let first_line = lines[0].clone();
        let first_chars = first_line.as_str().unicode_len();
        let skip = if start.col.0 <= first_chars {
            start.col.0
        } else {
            first_chars
        };
        let cut_first = first_line.as_str().substring_char(skip, first_chars).to_owned();
        proof {
            assert(cut_first@ =~= lines@[0]@.skip(spec_min2(start.col.0 as int, lines@[0]@.len() as int)));
        }
        let ghost lines_b = lines@;
        let _ = lines.remove(0);
        lines.insert(0, cut_first);
        proof {
            assert(lines@.len() == lines_b.len());
            assert(forall|j: int| 1 <= j < lines_b.len() ==> lines@[j] == lines_b[j]);
            assert forall|j: int| 0 <= j < lines@.len() implies (#[trigger] lines@[j])@
                == spec_selected_line(
                content@,
                from as int,
                to as int,
                start.col.0 as int,
                end.col.0 as int,
                j,
            ) by {}
            lemma_selected_join(
                lines@,
                content@,
                from as int,
                to as int,
                start.col.0 as int,
                end.col.0 as int,
                0,
            );
        }

        let joined = join_lines(&lines);
        let cursor = Cursor { row: end.row, col: Col(len_last_col) };
        (joined, cursor)
    }
}

/// The lines from index `k` on, joined with a line break between each pair.
pub open spec fn spec_join_lines(lines: Seq<String>, k: int) -> Seq<char>
    decreases lines.len() - k,
{
    if k < 0 || k >= lines.len() {
        Seq::empty()
    } else {
        (if k > 0 {
            seq!['\n']
        } else {
            Seq::<char>::empty()
        }) + lines[k]@ + spec_join_lines(lines, k + 1)
    }
}

/// The lines joined with a line break between each pair.
pub fn join_lines(lines: &Vec<String>) -> (r: String)
    ensures
        r@ == spec_join_lines(lines@, 0),
{
    let mut out = String::new();
    let mut i: usize = 0;
    proof {
        assert(out@ + spec_join_lines(lines@, 0) =~= spec_join_lines(lines@, 0));
    }
    while i < lines.len()
        invariant
            i <= lines@.len(),
            out@ + spec_join_lines(lines@, i as int) == spec_join_lines(lines@, 0),
            i > 0 ==> out@.len() >= 0,
        decreases lines@.len() - i,
    {
        let ghost prev = out@;
        let ghost seg: Seq<char> = (if i > 0 {
            seq!['\n']
        } else {
            Seq::<char>::empty()
        }) + lines@[i as int]@;
        if i > 0 {
            crate::text::push_char(&mut out, '\n');
        }
        out.append(lines[i].as_str());
        proof {
            assert(out@ =~= prev + seg);
            assert(spec_join_lines(lines@, i as int) == seg + spec_join_lines(lines@, i + 1));
            assert(prev + (seg + spec_join_lines(lines@, i + 1)) =~= out@ + spec_join_lines(
                lines@,
                i + 1,
            ));
        }
        i = i + 1;
    }
    proof {
        assert(spec_join_lines(lines@, lines@.len() as int) =~= Seq::<char>::empty());
        assert(out@ + Seq::<char>::empty() =~= out@);
    }
    out
}

} // verus!

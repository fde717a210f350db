//! The chat transcript model: message states, the row ranges that place
//! each message in the buffer, and the pages a transcript divides into.

pub mod bar;
pub mod parser;

use vstd::prelude::*;

use crate::cursor::range_impl::RowRange;
use crate::cursor::usize_impl::{OFFSET_LIMIT, Row};
use crate::mistral::completion::{CompletionParams, Model};
use crate::mistral::message::Message;
use crate::mistral::stream::{Status, Usage};
use crate::tool_mode::Mode;

verus! {

/// The index of one message of a chat.
pub type MsgIndex = usize;

/// The index of one position range: the header first, then one per message.
pub type Position = usize;

/// One page of a transcript: its header, one of its messages, or the
/// trailing prompt.
#[derive(Debug, Clone, Copy, PartialEq, Eq, Structural)]
pub enum Page {
    Prompt(MsgIndex),
    Message(MsgIndex),
    Header,
}

impl Page {
    /// The page at one position index: position zero is the header, the
    /// last position is the prompt, everything between is a message.
    pub fn from_position(index: Position, messages_len: usize) -> (r: Page)
        ensures
            index == 0 ==> r == Page::Header,
            index != 0 && index == messages_len ==> r == Page::Prompt((index - 1) as usize),
            index != 0 && index != messages_len ==> r == Page::Message((index - 1) as usize),
    {
        if index == 0 {
            Page::Header
        } else if index == messages_len {
            Page::Prompt(index - 1)
        } else {
            Page::Message(index - 1)
        }
    }
}

/// The name, description and usage of one chat.
#[derive(Debug, Clone)]
pub struct ChatMetadata {
    pub name: String,
    pub description: String,
    pub usage: Usage,
}

impl ChatMetadata {
    /// Empty metadata: no name, no description, no usage yet.
    pub fn empty() -> (r: ChatMetadata)
        ensures
            r.name@ == Seq::<char>::empty(),
            r.description@ == Seq::<char>::empty(),
            r.usage.prompt_tokens == 0 && r.usage.completion_tokens == 0 && r.usage.total_tokens
                == 0,
    {
        ChatMetadata { name: String::new(), description: String::new(), usage: Usage::zero() }
    }
}

/// One message of a transcript with everything the buffer line records of
/// it: its mode, model, usage, parameters, status, and where its tool calls
/// sit.
#[derive(Debug, Clone)]
pub struct MessageState {
    pub message: Message,
    pub mode: Mode,
    pub model: Model,
    pub usage: Usage,
    pub params: CompletionParams,
    pub status: Status,
    pub tool_calls_positions: Option<Vec<RowRange>>,
}

impl MessageState {
    /// A fresh message: an empty assistant message, no tools, created.
    pub fn empty() -> (r: MessageState)
        ensures
            r.message.content@ == Seq::<char>::empty(),
            r.mode == Mode::NoTools,
            r.status is Created,
            r.tool_calls_positions is None,
    {
        MessageState {
            message: Message::empty(),
            mode: Mode::NoTools,
            model: Model::MistralMediumLatest,
            usage: Usage::zero(),
            params: CompletionParams::empty(),
            status: Status::Created,
            tool_calls_positions: None,
        }
    }
}

/// The form collected when a chat is created.
#[derive(Debug, Clone)]
pub struct ChatForm {
    pub name: String,
    pub description: String,
    pub model: Model,
    pub mode: Mode,
}

/// The row ranges placing a transcript in its buffer: the header's range
/// first, then one range per message, the last reaching the end of the
/// buffer. Never empty.
#[derive(Debug, Clone)]
pub struct MessagesPositions(pub Vec<RowRange>);

/// The index of the first range holding the row, scanning from `i` on.
pub open spec fn spec_pos_index(positions: Seq<RowRange>, row: Row, i: int) -> Option<int>
    decreases positions.len() - i,
{
    if i < 0 || i >= positions.len() {
        None
    } else if positions[i].start.0 <= row.0 <= positions[i].end.0 {
        Some(i)
    } else {
        spec_pos_index(positions, row, i + 1)
    }
}

impl MessagesPositions {
    /// Whether the list is usable: at least the header's range.
    pub open spec fn wf(&self) -> bool {
        self.0@.len() >= 1
    }

    /// The starting positions: the header's range covering the whole buffer.
    pub fn new() -> (r: MessagesPositions)
        ensures
            r.wf(),
            r.0@.len() == 1,
    {
        let mut v: Vec<RowRange> = Vec::new();
        v.push(RowRange { start: Row(0), end: Row(OFFSET_LIMIT) });
        MessagesPositions(v)
    }

    /// The first range holding the row, scanning from the header down.
    pub fn get_by_row(&self, current_row: Row) -> (r: Option<RowRange>)
        ensures
            match spec_pos_index(self.0@, current_row, 0) {
                Some(i) => r == Some(self.0@[i]),
                None => r is None,
            },
    {
        match self.pos_index_by_row(&current_row) {
            Some(i) => Some(self.0[i]),
            None => None,
        }
    }

    /// The message index of the row: its position index less the header;
    /// `None` on the header or outside every range.
    pub fn index_by_row(&self, current_row: &Row) -> (r: Option<MsgIndex>)
        ensures
            match spec_pos_index(self.0@, *current_row, 0) {
                Some(i) => if i == 0 {
                    r is None
                } else {
                    r is Some && r->0 as int == i - 1
                },
                None => r is None,
            },
    {
        let index = match self.pos_index_by_row(current_row) {
            Some(i) => i,
            None => {
                return None;
            },
        };
        if index == 0 {
            None
        } else {
            Some(index - 1)
        }
    }

    /// The index of the first range holding the row; `None` exactly when no
    /// range holds it.
    pub fn pos_index_by_row(&self, current_row: &Row) -> (r: Option<Position>)
        ensures
            match spec_pos_index(self.0@, *current_row, 0) {
                Some(i) => r is Some && r->0 as int == i,
                None => r is None,
            },
            match r {
                Some(i) => i < self.0@.len() && self.0@[i as int].start.0 <= current_row.0
                    <= self.0@[i as int].end.0,
                None => true,
            },
    {
        let mut i: usize = 0;
        while i < self.0.len()
            invariant
                i <= self.0@.len(),
                spec_pos_index(self.0@, *current_row, 0) == spec_pos_index(
                    self.0@,
                    *current_row,
                    i as int,
                ),
            decreases self.0@.len() - i,
        {
            if self.0[i].contains(*current_row) {
                return Some(i);
            }
            i = i + 1;
        }
        None
    }

    /// The range and index holding the row, or the last range and the
    /// message count when no range holds it.
    pub fn get_range_index_by_row(&self, current_row: Row) -> (r: (RowRange, Position))
        requires
            self.wf(),
        ensures
            match spec_pos_index(self.0@, current_row, 0) {
                Some(i) => r.0 == self.0@[i] && r.1 as int == i,
                None => r.0 == self.0@[self.0@.len() - 1] && r.1 as int == self.0@.len() - 1,
            },
    {
        match self.pos_index_by_row(&current_row) {
            Some(i) => (self.0[i], i),
            None => (self.last(), self.nb_msg()),
        }
    }

    /// How many messages the positions cover: every range but the header's.
    pub fn nb_msg(&self) -> (r: usize)
        requires
            self.wf(),
        ensures
            r == self.0@.len() - 1,
    {
        self.0.len() - 1
    }

    /// The last range: the prompt's, reaching the end of the buffer.
    pub fn last(&self) -> (r: RowRange)
        requires
            self.wf(),
        ensures
            r == self.0@[self.0@.len() - 1],
    {
        self.0[self.0.len() - 1]
    }

    /// Where the last range starts.
    pub fn last_start(&self) -> (r: Row)
        requires
            self.wf(),
        ensures
            r == self.0@[self.0@.len() - 1].start,
    {
        self.0[self.0.len() - 1].start
    }

    /// The range of one message: its position is one past the header.
    pub fn get_by_msg_index(&self, msg_index: MsgIndex) -> (r: Option<RowRange>)
        ensures
            msg_index + 1 < self.0@.len() ==> r == Some(self.0@[msg_index + 1]),
            msg_index + 1 >= self.0@.len() ==> r is None,
    {
        let n = self.0.len();
        if msg_index < n && msg_index + 1 < n {
            Some(self.0[msg_index + 1])
        } else {
            None
        }
    }

    /// The range at one position index.
    pub fn get_range(&self, index: Position) -> (r: Option<RowRange>)
        ensures
            match r {
                Some(range) => index < self.0@.len() && range == self.0@[index as int],
                None => index >= self.0@.len(),
            },
    {
        if index < self.0.len() {
            Some(self.0[index])
        } else {
            None
        }
    }

    /// Drops the last range, keeping at least the header and one message;
    /// `None` when nothing can leave.
    pub fn pop(&mut self) -> (r: Option<RowRange>)
        ensures
            old(self).0@.len() <= 2 ==> r is None && final(self).0@ == old(self).0@,
            old(self).0@.len() > 2 ==> r == Some(old(self).0@[old(self).0@.len() - 1])
                && final(self).0@ == old(self).0@.drop_last(),
    {
        if self.0.len() <= 2 {
            None
        } else {
            self.0.pop()
        }
    }

    /// All ranges, in order.
    pub fn ranges(&self) -> (r: Vec<RowRange>)
        ensures
            r@ == self.0@,
    {
        let mut out: Vec<RowRange> = Vec::new();
        let mut i: usize = 0;
        while i < self.0.len()
            invariant
                i <= self.0@.len(),
                out@ == self.0@.take(i as int),
            decreases self.0@.len() - i,
        {
            out.push(self.0[i]);
            proof {
                assert(out@ =~= self.0@.take(i + 1));
            }
            i = i + 1;
        }
        proof {
            assert(self.0@.take(self.0@.len() as int) =~= self.0@);
        }
        out
    }

    /// The transcript's pages in order: the header, each sent message, then
    /// the prompt.
    pub fn pages_iterator(&self) -> (r: Vec<Page>)
        requires
            self.wf(),
            self.0@.len() >= 2,
        ensures
            r@.len() == self.0@.len(),
            r@[0] == Page::Header,
            r@[r@.len() - 1] == Page::Prompt((self.0@.len() - 2) as usize),
            forall|k: int| 1 <= k < r@.len() - 1 ==> r@[k] == Page::Message((k - 1) as usize),
    {
        let last = self.nb_msg() - 1;
        let mut out: Vec<Page> = Vec::new();
        out.push(Page::Header);
        let mut index: usize = 0;
        while index < last
            invariant
                index <= last,
                out@.len() == index + 1,
                out@[0] == Page::Header,
                forall|k: int| 1 <= k < out@.len() ==> out@[k] == Page::Message((k - 1) as usize),
                last == self.0@.len() - 2,
            decreases last - index,
        {
            out.push(Page::Message(index));
            index = index + 1;
        }
        out.push(Page::Prompt(last));
        out
    }
}

} // verus!

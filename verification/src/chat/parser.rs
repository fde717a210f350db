//! Reading and writing the tagged lines of a transcript buffer.
//!
//! A transcript is ordinary text interleaved with tag lines: a chat header,
//! one self-closing tag per message, and open/close tag pairs around tool
//! calls. This module parses one tag line into its quoted arguments, writes
//! arguments back with their quotes escaped, and rebuilds message states and
//! positions from the buffer's lines.

use vstd::prelude::*;

use crate::chat::{ChatMetadata, MessageState};
use crate::cursor::range_impl::RowRange;
use crate::cursor::usize_impl::{OFFSET_LIMIT, Row};
use crate::mistral::tools::ToolCall;
use crate::notify::{Notification, NotifyLevel};
use crate::text::{
    ends_with,
    push_char,
    spec_ends_with,
    spec_starts_with,
    starts_with,
    str_eq,
};

verus! {

/// The chat header's tag.
pub const TAG_CHAT: &'static str = "CHAT";

/// The message tag.
pub const TAG_MESSAGE: &'static str = "MESSAGE";

/// The tool-call tag.
pub const TAG_TOOL_CALL: &'static str = "TOOLCALL";

/// The view of `<` followed by a tag.
pub open spec fn spec_open_prefix(tag: Seq<char>) -> Seq<char> {
    seq!['<'] + tag
}

/// Whether the line is a self-closing tag line: `<TAG ... />`.
pub fn is_self_tag_line(line: &str, tag: &str) -> (r: bool)
    ensures
        r == (spec_starts_with(line@, spec_open_prefix(tag@)) && spec_ends_with(line@, "/>"@)),
{
    let mut prefix = String::new();
    push_char(&mut prefix, '<');
    prefix.append(tag);
    proof {
        assert(prefix@ =~= spec_open_prefix(tag@));
    }
    starts_with(line, prefix.as_str()) && ends_with(line, "/>")
}

/// Whether the line opens a tag: `<TAG ...>`.
pub fn is_open_tag_line(line: &str, tag: &str) -> (r: bool)
    ensures
        r == (spec_starts_with(line@, spec_open_prefix(tag@)) && spec_ends_with(line@, ">"@)),
{
    let mut prefix = String::new();
    push_char(&mut prefix, '<');
    prefix.append(tag);
    proof {
        assert(prefix@ =~= spec_open_prefix(tag@));
    }
    starts_with(line, prefix.as_str()) && ends_with(line, ">")
}

/// Whether the line closes a tag: exactly `</TAG>`.
pub fn is_close_tag_line(line: &str, tag: &str) -> (r: bool)
    ensures
        r == (line@ == "</"@ + tag@ + seq!['>']),
{
    let mut expected = "</".to_owned();
    expected.append(tag);
    push_char(&mut expected, '>');
    proof {
        assert(expected@ =~= "</"@ + tag@ + seq!['>']);
    }
    str_eq(line, expected.as_str())
}

/// The display text of an optional value, empty when absent.
pub fn option_to_arg(value: &Option<String>) -> (r: String)
    ensures
        match value {
            Some(v) => r@ == v@,
            None => r@ == Seq::<char>::empty(),
        },
{
    match value {
        Some(v) => v.clone(),
        None => String::new(),
    }
}

/// The display text of an optional numeral, empty when absent.
pub fn option_to_arg_u32(value: &Option<u32>) -> (r: String)
    ensures
        match value {
            Some(v) => r@ == crate::text::spec_u32_text(*v as int),
            None => r@ == Seq::<char>::empty(),
        },
{
    match value {
        Some(v) => crate::text::u32_text(*v),
        None => String::new(),
    }
}

/// A value with every backslash and double quote escaped by a backslash.
pub open spec fn spec_escape(s: Seq<char>) -> Seq<char>
    decreases s.len(),
{
    if s.len() == 0 {
        Seq::empty()
    } else if s[0] == '\\' || s[0] == '"' {
        seq!['\\', s[0]] + spec_escape(s.skip(1))
    } else {
        seq![s[0]] + spec_escape(s.skip(1))
    }
}

/// The text with its escapes undone: a backslash before a backslash or a
/// quote disappears, a backslash before anything else stays, and a trailing
/// lone backslash disappears.
pub open spec fn spec_unescape(s: Seq<char>) -> Seq<char>
    decreases s.len(),
{
    if s.len() == 0 {
        Seq::empty()
    } else if s[0] == '\\' {
        if s.len() == 1 {
            Seq::empty()
        } else if s[1] == '\\' || s[1] == '"' {
            seq![s[1]] + spec_unescape(s.skip(2))
        } else {
            seq!['\\', s[1]] + spec_unescape(s.skip(2))
        }
    } else {
        seq![s[0]] + spec_unescape(s.skip(1))
    }
}

/// Escapes a value for a quoted argument.
pub fn escape_quote_arg(value: &str) -> (r: String)
    ensures
        r@ == spec_escape(value@),
{
    let len = value.unicode_len();
    let mut out = String::new();
    let mut i: usize = 0;
    proof {
        assert(value@.skip(0) =~= value@);
    }
    while i < len
        invariant
            i <= len,
            len == value@.len(),
            spec_escape(value@) == out@ + spec_escape(value@.skip(i as int)),
        decreases len - i,
    {
        let c = value.get_char(i);
        proof {
            assert(value@.skip(i as int)[0] == value@[i as int]);
            assert(value@.skip(i as int).skip(1) =~= value@.skip(i + 1));
        }
        let ghost prev = out@;
        if c == '\\' || c == '"' {
            push_char(&mut out, '\\');
            push_char(&mut out, c);
            proof {
                assert(prev + (seq!['\\', c] + spec_escape(value@.skip(i + 1))) =~= out@
                    + spec_escape(value@.skip(i + 1)));
            }
        } else {
            push_char(&mut out, c);
            proof {
                assert(prev + (seq![c] + spec_escape(value@.skip(i + 1))) =~= out@ + spec_escape(
                    value@.skip(i + 1),
                ));
            }
        }
        i = i + 1;
    }
    proof {
        assert(value@.skip(len as int) =~= Seq::<char>::empty());
        assert(out@ + Seq::<char>::empty() =~= out@);
    }
    out
}

/// Undoes `escape_quote_arg`.
pub fn unescape_quote_arg(value: &str) -> (r: String)
    ensures
        r@ == spec_unescape(value@),
{
    let len = value.unicode_len();
    let mut out = String::new();
    let mut i: usize = 0;
    proof {
        assert(value@.skip(0) =~= value@);
    }
    while i < len
        invariant
            i <= len,
            len == value@.len(),
            spec_unescape(value@) == out@ + spec_unescape(value@.skip(i as int)),
        decreases len - i,
    {
        let c = value.get_char(i);
        proof {
            assert(value@.skip(i as int)[0] == value@[i as int]);
            assert(value@.skip(i as int).skip(1) =~= value@.skip(i + 1));
        }
        let ghost prev = out@;
        if c == '\\' {
            if i + 1 < len {
                let c2 = value.get_char(i + 1);
                proof {
                    assert(value@.skip(i as int)[1] == value@[i + 1]);
                    assert(value@.skip(i as int).skip(2) =~= value@.skip(i + 2));
                }
                if c2 == '\\' || c2 == '"' {
                    push_char(&mut out, c2);
                    proof {
                        assert(prev + (seq![c2] + spec_unescape(value@.skip(i + 2))) =~= out@
                            + spec_unescape(value@.skip(i + 2)));
                    }
                } else {
                    push_char(&mut out, '\\');
                    push_char(&mut out, c2);
                    proof {
                        assert(prev + (seq!['\\', c2] + spec_unescape(value@.skip(i + 2))) =~= out@
                            + spec_unescape(value@.skip(i + 2)));
                    }
                }
                i = i + 2;
            } else {
                proof {
                    assert(value@.skip(i as int).len() == 1);
                    assert(prev + Seq::<char>::empty() =~= out@ + spec_unescape(
                        value@.skip(len as int),
                    ));
                }
                i = i + 1;
            }
        } else {
            push_char(&mut out, c);
            proof {
                assert(prev + (seq![c] + spec_unescape(value@.skip(i + 1))) =~= out@
                    + spec_unescape(value@.skip(i + 1)));
            }
            i = i + 1;
        }
    }
    proof {
        assert(value@.skip(len as int) =~= Seq::<char>::empty());
        assert(out@ + Seq::<char>::empty() =~= out@);
    }
    out
}

/// Appends ` key="value"` to `args`, the value escaped.
pub fn write_arg(args: &mut String, key: &str, value: &str)
    ensures
        final(args)@ == old(args)@ + seq![' '] + key@ + "=\""@ + spec_escape(value@) + seq!['"'],
{
    let ghost before = args@;
    push_char(args, ' ');
    args.append(key);
    args.append("=\"");
    let escaped = escape_quote_arg(value);
    args.append(escaped.as_str());
    push_char(args, '"');
    proof {
        assert(args@ =~= before + seq![' '] + key@ + "=\""@ + spec_escape(value@) + seq!['"']);
    }
}

/// One parsed argument of a tag line: its key, its unparsed value, and the
/// column span of the value between its quotes.
#[derive(Debug, Clone)]
pub struct TagArg {
    pub key: String,
    pub value: String,
    pub col_start: usize,
    pub col_end: usize,
}

/// Reads the `key="value"` arguments of one tag line, in order. Escaped
/// quotes stay part of a value; anything after an unquoted `>` is ignored.
pub fn parse_tag_line(tag_line: &str) -> (r: Vec<TagArg>) {
    let len = tag_line.unicode_len();
    let mut out: Vec<TagArg> = Vec::new();

    // Skip the tag itself: everything up to the first space.
    let mut sp: usize = 0;
    let mut found_space = false;
    let mut scan: usize = 0;
    while scan < len
        invariant
            scan <= len,
            len == tag_line@.len(),
            found_space ==> sp < len,
        decreases len - scan,
    {
        if tag_line.get_char(scan) == ' ' {
            if !found_space {
                sp = scan;
                found_space = true;
            }
        }
        scan = scan + 1;
    }
    if !found_space {
        return out;
    }

    let mut in_quote = false;
    let mut key = String::new();
    let mut value = String::new();
    let mut col_start: usize = 0;
    let mut col_end: usize = 0;
    let mut p: usize = sp + 1;
    while p < len
        invariant
            sp < p <= len,
            len == tag_line@.len(),
        decreases len - p,
    {
        let c1 = tag_line.get_char(p);
        let c0 = if p == sp + 1 {
            ' '
        } else {
            tag_line.get_char(p - 1)
        };
        if c0 == '>' && !in_quote {
            return out;
        } else if c0 == '"' && (c1 == '/' || c1 == ' ' || c1 == '>') && !in_quote {
            let k = key;
            let v = value;
            key = String::new();
            value = String::new();
            out.push(TagArg { key: k, value: v, col_start, col_end });
            col_start = 0;
            col_end = 0;
        } else if c1 == '"' && c0 != '\\' {
            if in_quote {
                col_end = p;
            } else {
                col_start = if p < usize::MAX {
                    p + 1
                } else {
                    p
                };
            }
            in_quote = !in_quote;
        } else if in_quote {
            push_char(&mut value, c1);
        } else if c1 == ' ' {
            // A separator outside quotes carries nothing.
        } else if c1 == '=' {
            // The key-value separator carries nothing.
        } else {
            push_char(&mut key, c1);
        }
        p = p + 1;
    }
    out
}

/// Applies one parsed argument to the chat's metadata.
pub fn config_setter(key: &str, val: &str, metadata: &mut ChatMetadata) {
    let val = unescape_quote_arg(val);
    if str_eq(key, "name") {
        metadata.name = val;
    } else if str_eq(key, "usage") {
        metadata.usage = crate::mistral::stream::Usage::from_text(val.as_str());
    } else if str_eq(key, "description") {
        metadata.description = val;
    }
}

/// The escaped display value of one metadata key; `None` for an unknown key.
pub fn config_getter(key: &str, metadata: &ChatMetadata) -> (r: Option<String>) {
    let raw = if str_eq(key, "name") {
        metadata.name.clone()
    } else if str_eq(key, "usage") {
        metadata.usage.to_text()
    } else if str_eq(key, "description") {
        metadata.description.clone()
    } else {
        return None;
    };
    Some(escape_quote_arg(raw.as_str()))
}

/// Applies one parsed argument to a message state.
pub fn message_setter(key: &str, val: &str, msg: &mut MessageState) {
    let val = unescape_quote_arg(val);
    if str_eq(key, "status") {
        msg.status.replace_from_str(val.as_str());
    } else if str_eq(key, "model") {
        msg.model.replace_from_str(val.as_str());
    } else if str_eq(key, "mode") {
        msg.mode.replace_from_str(val.as_str());
    } else if str_eq(key, "usage") {
        msg.usage = crate::mistral::stream::Usage::from_text(val.as_str());
    } else if str_eq(key, "role") {
        msg.message.role.replace_from_str(val.as_str());
    } else if str_eq(key, "name") {
        msg.message.name = if val.unicode_len() > 0 {
            Some(val)
        } else {
            None
        };
    } else if str_eq(key, "tool_call_id") {
        msg.message.tool_call_id = if val.unicode_len() > 0 {
            Some(val)
        } else {
            None
        };
    } else if str_eq(key, "min_tokens") {
        msg.params.min_tokens = crate::text::parse_u32(val.as_str());
    } else if str_eq(key, "max_tokens") {
        msg.params.max_tokens = crate::text::parse_u32(val.as_str());
    }
}

/// The escaped display value of one message key; `None` for an unknown key.
pub fn message_getter(key: &str, msg: &MessageState) -> (r: Option<String>) {
    let raw = if str_eq(key, "status") {
        status_text(&msg.status)
    } else if str_eq(key, "model") {
        msg.model.name().to_owned()
    } else if str_eq(key, "mode") {
        msg.mode.name().to_owned()
    } else if str_eq(key, "usage") {
        msg.usage.to_text()
    } else if str_eq(key, "role") {
        msg.message.role.name().to_owned()
    } else if str_eq(key, "name") {
        option_to_arg(&msg.message.name)
    } else if str_eq(key, "tool_call_id") {
        option_to_arg(&msg.message.tool_call_id)
    } else if str_eq(key, "min_tokens") {
        option_to_arg_u32(&msg.params.min_tokens)
    } else if str_eq(key, "max_tokens") {
        option_to_arg_u32(&msg.params.max_tokens)
    } else {
        return None;
    };
    Some(escape_quote_arg(raw.as_str()))
}

/// Applies one parsed argument to a tool call.
pub fn tool_call_setter(key: &str, val: &str, tool_call: &mut ToolCall) {
    let val = unescape_quote_arg(val);
    if str_eq(key, "id") {
        tool_call.id = Some(val);
    } else if str_eq(key, "index") {
        tool_call.index = crate::text::parse_u32(val.as_str());
    } else if str_eq(key, "name") {
        tool_call.function.name = val;
    } else if str_eq(key, "arguments") {
        tool_call.function.arguments = val;
    }
}

/// The escaped display value of one tool-call key; `None` for an unknown
/// key or an absent value.
pub fn tool_call_getter(key: &str, tool_call: &ToolCall) -> (r: Option<String>) {
    let raw = if str_eq(key, "id") {
        match &tool_call.id {
            Some(id) => id.clone(),
            None => {
                return None;
            },
        }
    } else if str_eq(key, "index") {
        match &tool_call.index {
            Some(index) => crate::text::u32_text(*index),
            None => {
                return None;
            },
        }
    } else if str_eq(key, "name") {
        tool_call.function.name.clone()
    } else if str_eq(key, "arguments") {
        tool_call.function.arguments.clone()
    } else {
        return None;
    };
    Some(escape_quote_arg(raw.as_str()))
}

/// The display text of a status, as written on a tag line.
pub fn status_text(status: &crate::mistral::stream::Status) -> (r: String) {
    match status {
        crate::mistral::stream::Status::Completed => "Completed".to_owned(),
        crate::mistral::stream::Status::Partial(err) => {
            let mut out = "Partial : ".to_owned();
            out.append(err.as_str());
            out
        },
        crate::mistral::stream::Status::Failed(err, _) => {
            let mut out = "Failed : ".to_owned();
            out.append(err.as_str());
            out
        },
        crate::mistral::stream::Status::Created => "Created".to_owned(),
        crate::mistral::stream::Status::Initialised => "Initialised".to_owned(),
    }
}

/// The tag line of one message, followed by its tool-call lines and its
/// content lines.
pub fn build_tag_message_lines(message: MessageState) -> (r: Vec<String>)
    ensures
        r@.len() >= 3,
{
    let mut args = String::new();
    write_arg(&mut args, "role", message.message.role.name());
    write_arg(&mut args, "model", message.model.name());
    let status = status_text(&message.status);
    write_arg(&mut args, "status", status.as_str());
    let usage = message.usage.to_text();
    write_arg(&mut args, "usage", usage.as_str());
    write_arg(&mut args, "mode", message.mode.name());
    if let Some(name) = &message.message.name {
        write_arg(&mut args, "name", name.as_str());
    }
    if let Some(tool_call_id) = &message.message.tool_call_id {
        write_arg(&mut args, "tool_call_id", tool_call_id.as_str());
    }
    if let Some(min_tokens) = &message.params.min_tokens {
        let t = crate::text::u32_text(*min_tokens);
        write_arg(&mut args, "min_tokens", t.as_str());
    }
    if let Some(max_tokens) = &message.params.max_tokens {
        let t = crate::text::u32_text(*max_tokens);
        write_arg(&mut args, "max_tokens", t.as_str());
    }
    let mut lines: Vec<String> = Vec::new();
    lines.push(String::new());
    lines.push(String::new());
    let mut tag_line = String::new();
    push_char(&mut tag_line, '<');
    tag_line.append(TAG_MESSAGE);
    tag_line.append(args.as_str());
    tag_line.append("/>");
    lines.push(tag_line);
    if let Some(tool_calls) = &message.message.tool_calls {
        let mut i: usize = 0;
        while i < tool_calls.len()
            invariant
                lines@.len() >= 3,
            decreases tool_calls@.len() - i,
        {
            let mut tc_lines = build_tag_tool_call_lines(&tool_calls[i]);
            lines.append(&mut tc_lines);
            i = i + 1;
        }
    }
    let mut content_lines = crate::text::split_char(message.message.content.as_str(), '\n');
    lines.append(&mut content_lines);
    lines
}

/// The lines of one tool call: its opening tag, its arguments fenced as a
/// code block, and its closing tag.
pub fn build_tag_tool_call_lines(tool_call: &ToolCall) -> (r: Vec<String>)
    ensures
        r@.len() >= 6,
{
    let mut args = String::new();
    if let Some(id) = &tool_call.id {
        write_arg(&mut args, "id", id.as_str());
    }
    if let Some(index) = &tool_call.index {
        let t = crate::text::u32_text(*index);
        write_arg(&mut args, "index", t.as_str());
    }
    write_arg(&mut args, "name", tool_call.function.name.as_str());

    let mut lines: Vec<String> = Vec::new();
    lines.push(String::new());
    let mut open_line = String::new();
    push_char(&mut open_line, '<');
    open_line.append(TAG_TOOL_CALL);
    open_line.append(args.as_str());
    push_char(&mut open_line, '>');
    lines.push(open_line);
    lines.push(String::new());
    lines.push("```json".to_owned());
    let mut arg_lines = crate::text::split_char(tool_call.function.arguments.as_str(), '\n');
    lines.append(&mut arg_lines);
    lines.push("```".to_owned());
    let mut close_line = "</".to_owned();
    close_line.append(TAG_TOOL_CALL);
    push_char(&mut close_line, '>');
    lines.push(close_line);
    lines
}

/// What a transcript rebuild works from: where the affected positions start
/// and end, whether the whole buffer is covered, and how many positions the
/// transcript held before.
pub struct GeneratorArgs {
    pub start: (usize, Row),
    pub end: (usize, Row),
    pub from_begin: bool,
    pub until_end: bool,
    pub rows_range: RowRange,
    pub current_len: usize,
}

impl GeneratorArgs {
    /// Computes the affected span: the first position holding the range's
    /// start, the last holding its end; when either is missing the whole
    /// transcript is affected.
    pub fn new(
        positions: &crate::chat::MessagesPositions,
        rows_range: RowRange,
        buf_last_row: Row,
    ) -> (r: GeneratorArgs)
        requires
            positions.wf(),
    {
        let current_len = positions.0.len();
        let mut start: Option<(usize, Row)> = None;
        let mut end: Option<(usize, Row)> = None;
        let mut i: usize = 0;
        while i < positions.0.len()
            decreases positions.0@.len() - i,
        {
            let range = positions.0[i];
            if start.is_none() && range.start.0 <= rows_range.start.0 && rows_range.start.0
                <= range.end.0 {
                start = Some((i, range.start));
            }
            if end.is_none() && range.start.0 <= rows_range.end.0 && rows_range.end.0
                <= range.end.0 {
                end = Some((i, range.end));
            }
            i = i + 1;
        }
        let (start, end) = match (start, end) {
            (Some(s), Some(e)) => (s, e),
            _ => ((0, Row(0)), (current_len - 1, Row(OFFSET_LIMIT))),
        };
        let from_begin = start.1.0 == 0;
        let until_end = end.1.0 == OFFSET_LIMIT || buf_last_row.0 <= end.1.0;
        GeneratorArgs { start, end, from_begin, until_end, rows_range, current_len }
    }

    /// Whether the whole transcript is affected.
    pub fn is_full_range(&self) -> (r: bool)
        ensures
            r == (self.from_begin && self.until_end),
    {
        self.from_begin && self.until_end
    }

    /// The last affected row.
    pub fn row_end(&self) -> (r: Row)
        ensures
            r == self.end.1,
    {
        self.end.1
    }
}

/// Where a rebuild stands: before any tag, inside an open tag, after a
/// closed one, or already consumed.
#[derive(Debug, Clone, Copy, PartialEq, Eq, Structural)]
pub enum GeneratorState {
    Empty,
    TagOpened,
    TagClosed,
    Completed,
}

/// The affected slice of `target` replaced by `items`: everything before
/// position `index_start` stays, then the new items, then everything after
/// position `index_end`.
pub open spec fn spec_splice_items<T>(
    target: Seq<T>,
    items: Seq<T>,
    index_start: int,
    index_end: int,
) -> Seq<T> {
    let is = if index_start <= target.len() {
        index_start
    } else {
        target.len() as int
    };
    let ie = if index_end + 1 <= target.len() {
        index_end + 1
    } else {
        target.len() as int
    };
    let ie = if ie < is {
        is
    } else {
        ie
    };
    target.take(is) + items + target.skip(ie)
}

/// Replaces the affected positions of `target` by the rebuilt `items`: the
/// whole list when the whole transcript was affected, otherwise the slice
/// from the first affected position to the last, each lowered by `shift`.
pub fn splice_items<T>(target: &mut Vec<T>, items: Vec<T>, args: &GeneratorArgs, shift: usize)
    ensures
        args.from_begin && args.until_end ==> final(target)@ == items@,
        !(args.from_begin && args.until_end) ==> final(target)@ == spec_splice_items(
            old(target)@,
            items@,
            if args.start.0 >= shift {
                args.start.0 - shift
            } else {
                0
            },
            if args.end.0 >= shift {
                args.end.0 - shift
            } else {
                0
            },
        ),
{
    if args.is_full_range() {
        *target = items;
        return;
    }
    let index_start = crate::cursor::usize_impl::sub_sat(args.start.0, shift);
    let index_end = crate::cursor::usize_impl::sub_sat(args.end.0, shift);
    let n = target.len();
    let is = if index_start <= n {
        index_start
    } else {
        n
    };
    let mut ie = if index_end < n {
        index_end + 1
    } else {
        n
    };
    if ie < is {
        ie = is;
    }
    let mut rest: Vec<T> = Vec::new();
    core::mem::swap(target, &mut rest);
    let ghost orig = rest@;
    let mut out: Vec<T> = Vec::new();
    let mut i: usize = 0;
    while i < is
        invariant
            i <= is,
            is <= n,
            n == orig.len(),
            out@ =~= orig.take(i as int),
            rest@ =~= orig.skip(i as int),
        decreases is - i,
    {
        let item = rest.remove(0);
        out.push(item);
        proof {
            assert(orig.skip(i as int)[0] == orig[i as int]);
            assert(out@ =~= orig.take(i + 1));
            assert(orig.skip(i as int).skip(1) =~= orig.skip(i + 1));
        }
        i = i + 1;
    }
    let ghost kept_prefix = out@;
    let mut items = items;
    let ghost items_view = items@;
    out.append(&mut items);
    let mut j: usize = is;
    while j < ie
        invariant
            is <= j <= ie,
            ie <= n,
            n == orig.len(),
            rest@ =~= orig.skip(j as int),
        decreases ie - j,
    {
        let _ = rest.remove(0);
        proof {
            assert(orig.skip(j as int).skip(1) =~= orig.skip(j + 1));
        }
        j = j + 1;
    }
    out.append(&mut rest);
    *target = out;
    proof {
        assert(final(target)@ =~= kept_prefix + items_view + orig.skip(ie as int));
        assert(spec_splice_items(orig, items_view, index_start as int, index_end as int)
            =~= final(target)@);
    }
}

/// Rebuilds the position ranges of a transcript: one range opens at each
/// message tag line and closes where the next opens, the last reaching the
/// affected span's end.
pub struct PosGen {
    pub state: GeneratorState,
    pub tags_row_found: Vec<Row>,
}

impl PosGen {
    /// A fresh position rebuild; a rebuild starting at the buffer's first
    /// row opens the header's range at the affected span's start.
    pub fn new(args: &GeneratorArgs) -> (r: PosGen)
        ensures
            r.state == GeneratorState::Empty,
    {
        let mut tags_row_found: Vec<Row> = Vec::new();
        if args.rows_range.start.0 == 0 {
            tags_row_found.push(args.start.1);
        }
        PosGen { state: GeneratorState::Empty, tags_row_found }
    }

    /// Feeds one line: a message tag line opens the next range at its row.
    pub fn next_line(&mut self, line_nb: Row, line: &str) {
        if is_self_tag_line(line, TAG_MESSAGE) {
            self.tags_row_found.push(line_nb);
            self.state = GeneratorState::TagClosed;
        }
    }

    /// Closes the rebuild at the affected span's end. A full-range rebuild
    /// that saw no message tag is an error: a transcript buffer must hold at
    /// least one.
    pub fn finalise(&mut self, args: &GeneratorArgs) -> (r: Result<(), Notification>) {
        self.tags_row_found.push(args.row_end());
        if args.is_full_range() && matches!(self.state, GeneratorState::Empty) {
            Err(
                Notification::new(
                    NotifyLevel::Error,
                    "There's no message tag in this buffer.".to_owned(),
                    String::new(),
                ),
            )
        } else {
            Ok(())
        }
    }

    /// The rebuilt ranges: one per consecutive pair of opened rows.
    pub fn take(&mut self) -> (r: Vec<RowRange>)
        ensures
            final(self).tags_row_found@.len() == 0,
    {
        let mut rows: Vec<Row> = Vec::new();
        core::mem::swap(&mut self.tags_row_found, &mut rows);
        let mut ranges: Vec<RowRange> = Vec::new();
        if rows.len() == 0 {
            return ranges;
        }
        let mut i: usize = 0;
        while i < rows.len() - 1
            invariant
                rows@.len() >= 1,
                i <= rows@.len() - 1,
            decreases rows@.len() - 1 - i,
        {
            ranges.push(RowRange::from_range(rows[i].0, rows[i + 1].0));
            i = i + 1;
        }
        ranges
    }
}

/// Rebuilds the tool calls of one message from its fenced lines.
pub struct ToolCallGen {
    pub state: GeneratorState,
    pub current: ToolCall,
    pub tool_calls: Vec<ToolCall>,
    pub in_json_block: bool,
}

impl ToolCallGen {
    /// A fresh tool-call rebuild.
    pub fn new() -> (r: ToolCallGen)
        ensures
            r.state == GeneratorState::Empty,
            r.tool_calls@.len() == 0,
    {
        ToolCallGen {
            state: GeneratorState::Empty,
            current: ToolCall::empty(),
            tool_calls: Vec::new(),
            in_json_block: false,
        }
    }

    /// Feeds one line: an opening tag starts a call and reads its
    /// arguments, a closing tag finishes it, and the fenced lines between
    /// accumulate as the call's argument text.
    pub fn next_line(&mut self, line: &str) {
        if is_open_tag_line(line, TAG_TOOL_CALL) {
            let args = parse_tag_line(line);
            let mut k: usize = 0;
            while k < args.len()
                decreases args@.len() - k,
            {
                tool_call_setter(args[k].key.as_str(), args[k].value.as_str(), &mut self.current);
                k = k + 1;
            }
            self.state = GeneratorState::TagOpened;
        } else if is_close_tag_line(line, TAG_TOOL_CALL) {
            let mut done = ToolCall::empty();
            core::mem::swap(&mut self.current, &mut done);
            self.tool_calls.push(done);
            self.state = GeneratorState::TagClosed;
        } else if str_eq(line, "```json") {
            self.in_json_block = true;
        } else if str_eq(line, "```") {
            self.in_json_block = false;
        } else if self.in_json_block {
            let args = &mut self.current.function.arguments;
            if args.unicode_len() > 0 {
                push_char(args, '\n');
            }
            args.append(line);
        }
    }

    /// The rebuilt calls.
    pub fn take(&mut self) -> (r: Vec<ToolCall>)
        ensures
            final(self).tool_calls@.len() == 0,
    {
        let mut out: Vec<ToolCall> = Vec::new();
        core::mem::swap(&mut self.tool_calls, &mut out);
        out
    }
}

/// Rebuilds the message states of a transcript from its lines.
pub struct MsgGen {
    pub state: GeneratorState,
    pub messages: Vec<MessageState>,
    pub nb_messages: usize,
    pub current_message: MessageState,
    pub tool_call_generator: Option<ToolCallGen>,
}

impl MsgGen {
    /// A fresh message rebuild.
    pub fn new() -> (r: MsgGen)
        ensures
            r.state == GeneratorState::Empty,
            r.messages@.len() == 0,
            r.nb_messages == 0,
    {
        MsgGen {
            state: GeneratorState::Empty,
            messages: Vec::new(),
            nb_messages: 0,
            current_message: MessageState::empty(),
            tool_call_generator: None,
        }
    }

    /// Folds the finished tool-call rebuild into the current message: its
    /// calls replace the message's, and a message of calls carries no
    /// content. An unclosed tool tag is an error.
    pub fn take_tool_calls(&mut self) -> (r: Result<(), Notification>) {
        let mut taken: Option<ToolCallGen> = None;
        core::mem::swap(&mut self.tool_call_generator, &mut taken);
        let mut tc_gen = match taken {
            Some(g) => g,
            None => {
                return Ok(());
            },
        };
        match tc_gen.state {
            GeneratorState::TagOpened => Err(
                Notification::new(
                    NotifyLevel::Error,
                    "Tool-call tag not closed.".to_owned(),
                    String::new(),
                ),
            ),
            GeneratorState::TagClosed => {
                let tool_calls = tc_gen.take();
                if tool_calls.len() > 0 {
                    self.current_message.message.tool_calls = Some(tool_calls);
                    // A message cannot carry both calls and content.
                    self.current_message.message.content = String::new();
                }
                Ok(())
            },
            _ => Ok(()),
        }
    }

    /// Feeds one line: a message tag line closes the current message and
    /// opens the next from the tag's arguments; a tool-call opening line
    /// starts a tool-call rebuild; anything else joins the current
    /// message's content or the running tool-call rebuild.
    pub fn next_line(&mut self, line: &str) -> (r: Result<(), Notification>) {
        let is_message_tag = is_self_tag_line(line, TAG_MESSAGE);
        if self.tool_call_generator.is_some() {
            if !is_message_tag {
                match &mut self.tool_call_generator {
                    Some(tc_gen) => {
                        tc_gen.next_line(line);
                        return Ok(());
                    },
                    None => {},
                }
            }
            match self.take_tool_calls() {
                Ok(()) => {},
                Err(e) => {
                    return Err(e);
                },
            }
        }
        if is_message_tag {
            let mut prev_message = MessageState::empty();
            core::mem::swap(&mut self.current_message, &mut prev_message);
            if self.nb_messages > 0 {
                prev_message.message.content = crate::text::trim_end_ws(
                    prev_message.message.content.as_str(),
                );
                self.messages.push(prev_message);
            }
            if self.nb_messages < usize::MAX {
                self.nb_messages = self.nb_messages + 1;
            }
            let args = parse_tag_line(line);
            let mut k: usize = 0;
            while k < args.len()
                decreases args@.len() - k,
            {
                message_setter(args[k].key.as_str(), args[k].value.as_str(), &mut self.current_message);
                k = k + 1;
            }
            self.state = GeneratorState::TagClosed;
        } else if is_open_tag_line(line, TAG_TOOL_CALL) {
            let mut tc_gen = ToolCallGen::new();
            tc_gen.next_line(line);
            self.tool_call_generator = Some(tc_gen);
            self.state = GeneratorState::TagClosed;
        } else {
            self.current_message.message.content.append(line);
            push_char(&mut self.current_message.message.content, '\n');
            self.state = GeneratorState::TagClosed;
        }
        Ok(())
    }

    /// Closes the rebuild: the last message joins the list, its content
    /// trimmed. A full-range rebuild that saw no message tag is an error.
    pub fn finalise(&mut self, args: &GeneratorArgs) -> (r: Result<(), Notification>) {
        if self.nb_messages > 0 {
            match self.take_tool_calls() {
                Ok(()) => {},
                Err(e) => {
                    return Err(e);
                },
            }
            let mut prev_message = MessageState::empty();
            core::mem::swap(&mut self.current_message, &mut prev_message);
            prev_message.message.content = crate::text::trim_end_ws(
                prev_message.message.content.as_str(),
            );
            self.messages.push(prev_message);
        }
        if args.is_full_range() && self.nb_messages == 0 {
            Err(
                Notification::new(
                    NotifyLevel::Warn,
                    "A transcript buffer must hold at least one message tag.".to_owned(),
                    String::new(),
                ),
            )
        } else {
            Ok(())
        }
    }

    /// The rebuilt messages.
    pub fn take(&mut self) -> (r: Vec<MessageState>)
        ensures
            final(self).messages@.len() == 0,
    {
        let mut out: Vec<MessageState> = Vec::new();
        core::mem::swap(&mut self.messages, &mut out);
        out
    }
}

/// Rebuilds a transcript's messages and positions from the affected lines
/// of its buffer. `lines` are the affected rows in order, the first at
/// `first_row`; when the rebuild starts at the buffer's first row, that
/// line must be the chat header, whose arguments land in `metadata`. The
/// rebuilt slice replaces the affected slice of `messages` and of
/// `positions`.
pub fn rebuild_transcript(
    lines: &Vec<String>,
    first_row: Row,
    args: &GeneratorArgs,
    metadata: &mut ChatMetadata,
    messages: &mut Vec<MessageState>,
    positions: &mut Vec<RowRange>,
) -> (r: Result<(), Notification>) {
    let mut index_row = first_row;
    let mut start: usize = 0;
    if args.from_begin {
        if lines.len() == 0 {
            return Err(
                Notification::new(
                    NotifyLevel::Warn,
                    "Empty buffer: a transcript must start with the chat header tag.".to_owned(),
                    String::new(),
                ),
            );
        }
        let first_line = &lines[0];
        if is_self_tag_line(first_line.as_str(), TAG_CHAT) {
            let parsed = parse_tag_line(first_line.as_str());
            let mut k: usize = 0;
            while k < parsed.len()
                decreases parsed@.len() - k,
            {
                config_setter(parsed[k].key.as_str(), parsed[k].value.as_str(), metadata);
                k = k + 1;
            }
        } else {
            return Err(
                Notification::new(
                    NotifyLevel::Warn,
                    "A transcript must start with the chat header tag.".to_owned(),
                    String::new(),
                ),
            );
        }
        index_row = Row(crate::cursor::usize_impl::add_sat(index_row.0, 1));
        start = 1;
    }
    let mut messages_generator = MsgGen::new();
    let mut positions_generator = PosGen::new(args);
    let mut i: usize = start;
    while i < lines.len()
        invariant
            i <= lines@.len(),
        decreases lines@.len() - i,
    {
        let line = &lines[i];
        match messages_generator.next_line(line.as_str()) {
            Ok(()) => {},
            Err(e) => {
                return Err(e);
            },
        }
        positions_generator.next_line(index_row, line.as_str());
        index_row = Row(crate::cursor::usize_impl::add_sat(index_row.0, 1));
        i = i + 1;
    }
    match messages_generator.finalise(args) {
        Ok(()) => {},
        Err(e) => {
            return Err(e);
        },
    }
    match positions_generator.finalise(args) {
        Ok(()) => {},
        Err(e) => {
            return Err(e);
        },
    }
    let new_messages = messages_generator.take();
    splice_items(messages, new_messages, args, 1);
    let new_positions = positions_generator.take();
    splice_items(positions, new_positions, args, 0);
    Ok(())
}

} // verus!

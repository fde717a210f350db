//! Streamed completion responses: deltas, usage accounting and statuses.

use vstd::prelude::*;

use super::message::{Message, Role};
use super::tools::ToolCall;

verus! {

/// One event of a streamed completion.
pub struct StreamEvent {
    pub choices: Vec<StreamChoice>,
    pub object: String,
    pub created: u32,
    pub model: super::completion::Model,
    pub usage: Option<Usage>,
    pub p: Option<String>,
}

/// The incremental payload of one stream event.
pub struct Delta {
    pub content: Option<String>,
    pub role: Option<Role>,
    pub tool_calls: Option<Vec<ToolCall>>,
}

/// Token counts reported by the API.
#[derive(Debug, Clone, Copy, PartialEq, Eq, Structural)]
pub struct Usage {
    pub prompt_tokens: u32,
    pub completion_tokens: u32,
    pub total_tokens: u32,
}

/// The numeral's value when it is well formed and fits, zero otherwise.
pub open spec fn spec_parse_or_zero(s: Seq<char>) -> int {
    match crate::text::spec_u32_numeral(s) {
        Some(digits) => if crate::text::spec_digits_value(digits, digits.len() as int)
            <= u32::MAX {
            crate::text::spec_digits_value(digits, digits.len() as int)
        } else {
            0
        },
        None => 0,
    }
}

/// The `k`-th semicolon-separated field of a usage text, read as a numeral;
/// zero when the field is missing or unreadable.
pub open spec fn spec_usage_field(value: Seq<char>, k: int) -> int {
    let parts = crate::text::spec_split(value, ';');
    if 0 <= k < parts.len() {
        spec_parse_or_zero(parts[k])
    } else {
        0
    }
}

impl Usage {
    /// No tokens counted yet.
    pub fn zero() -> (r: Usage)
        ensures
            r.prompt_tokens == 0,
            r.completion_tokens == 0,
            r.total_tokens == 0,
    {
        Usage { prompt_tokens: 0, completion_tokens: 0, total_tokens: 0 }
    }

    /// Adds another usage field by field, wrapping on overflow as the
    /// counters are only indicative.
    pub fn add(&mut self, rhs: &Usage)
        ensures
            final(self).prompt_tokens == old(self).prompt_tokens.wrapping_add(rhs.prompt_tokens),
            final(self).completion_tokens == old(self).completion_tokens.wrapping_add(
                rhs.completion_tokens,
            ),
            final(self).total_tokens == old(self).total_tokens.wrapping_add(rhs.total_tokens),
    {
        self.prompt_tokens = self.prompt_tokens.wrapping_add(rhs.prompt_tokens);
        self.completion_tokens = self.completion_tokens.wrapping_add(rhs.completion_tokens);
        self.total_tokens = self.total_tokens.wrapping_add(rhs.total_tokens);
    }

    /// Reads `prompt;completion;total` back from its display form; missing
    /// or unreadable parts count zero.
    pub fn from_text(value: &str) -> (r: Usage)
        ensures
            r.prompt_tokens as int == spec_usage_field(value@, 0),
            r.completion_tokens as int == spec_usage_field(value@, 1),
            r.total_tokens as int == spec_usage_field(value@, 2),
    {
        let parts = crate::text::split_char(value, ';');
        proof {
            assert(parts.deep_view().len() == parts@.len());
        }
        let prompt_tokens = if parts.len() >= 1 {
            proof {
                assert(parts.deep_view()[0] == parts@[0]@);
            }
            match crate::text::parse_u32(parts[0].as_str()) {
                Some(n) => n,
                None => 0,
            }
        } else {
            0
        };
        let completion_tokens = if parts.len() >= 2 {
            proof {
                assert(parts.deep_view()[1] == parts@[1]@);
            }
            match crate::text::parse_u32(parts[1].as_str()) {
                Some(n) => n,
                None => 0,
            }
        } else {
            0
        };
        let total_tokens = if parts.len() >= 3 {
            proof {
                assert(parts.deep_view()[2] == parts@[2]@);
            }
            match crate::text::parse_u32(parts[2].as_str()) {
                Some(n) => n,
                None => 0,
            }
        } else {
            0
        };
        Usage { prompt_tokens, completion_tokens, total_tokens }
    }

    /// Writes the usage as `prompt;completion;total`.
    pub fn to_text(&self) -> (r: String)
        ensures
            r@ == crate::text::spec_u32_text(self.prompt_tokens as int) + ";"@
                + crate::text::spec_u32_text(self.completion_tokens as int) + ";"@
                + crate::text::spec_u32_text(self.total_tokens as int),
    {
        let mut out = crate::text::u32_text(self.prompt_tokens);
        crate::text::push_char(&mut out, ';');
        let c = crate::text::u32_text(self.completion_tokens);
        out.append(c.as_str());
        crate::text::push_char(&mut out, ';');
        let t = crate::text::u32_text(self.total_tokens);
        out.append(t.as_str());
        proof {
            reveal_strlit(";");
            assert(out@ =~= crate::text::spec_u32_text(self.prompt_tokens as int) + ";"@
                + crate::text::spec_u32_text(self.completion_tokens as int) + ";"@
                + crate::text::spec_u32_text(self.total_tokens as int));
        }
        out
    }
}

/// One choice of a stream event.
pub struct StreamChoice {
    pub index: u32,
    pub delta: Delta,
    pub finish_reason: Option<String>,
}

/// The response being accumulated from a stream of deltas.
#[derive(Debug)]
pub struct StreamResponse {
    pub message: Message,
    pub status: Status,
    pub usage: Usage,
}

/// What one absorbed delta asks the surrounding system to do: forward the
/// role, the content chunk, and the tool calls that arrived, in that order.
pub struct DeltaActions {
    pub role: Option<Role>,
    pub content_chunk: Option<Vec<String>>,
    pub tool_calls: Option<Vec<ToolCall>>,
}

impl StreamResponse {
    /// An empty response: no content, completed status, zero usage.
    pub fn new() -> (r: StreamResponse)
        ensures
            r.message.content@ == Seq::<char>::empty(),
            r.message.role == Role::Assistant,
            r.message.prefix is None,
            r.message.tool_calls is None,
            r.message.tool_call_id is None,
            r.message.name is None,
            r.status is Completed,
            r.usage.prompt_tokens == 0 && r.usage.completion_tokens == 0 && r.usage.total_tokens
                == 0,
    {
        StreamResponse { message: Message::empty(), status: Status::Completed, usage: Usage::zero() }
    }

    /// Folds one delta into the accumulated message: the role replaces the
    /// message's role, the content is appended, the tool calls extend the
    /// message's calls. Returns what the caller should forward: the role,
    /// the content split at line breaks, and the tool calls.
    pub fn add_delta(&mut self, other: Delta) -> (r: DeltaActions)
        ensures
            match other.role {
                Some(role) => final(self).message.role == role && r.role == Some(role),
                None => final(self).message.role == old(self).message.role && r.role is None,
            },
            match other.content {
                Some(content) => final(self).message.content@ == old(self).message.content@
                    + content@,
                None => final(self).message.content@ == old(self).message.content@,
            },
            final(self).status == old(self).status,
            final(self).usage == old(self).usage,
    {
        let Delta { role, content, tool_calls } = other;
        let mut actions = DeltaActions { role: None, content_chunk: None, tool_calls: None };
        if let Some(role) = role {
            self.message.role = role;
            actions.role = Some(role);
        }
        if let Some(content) = content {
            self.message.content.append(content.as_str());
            let chunk = crate::text::split_char(content.as_str(), '\n');
            actions.content_chunk = Some(chunk);
        }
        if let Some(tool_calls) = tool_calls {
            actions.tool_calls = Some(tool_calls.clone());
            match &mut self.message.tool_calls {
                Some(msg_tool_calls) => {
                    let mut more = tool_calls;
                    msg_tool_calls.append(&mut more);
                },
                none_ptr => {
                    *none_ptr = Some(tool_calls);
                },
            }
        }
        actions
    }
}

/// Where one message stands in its life cycle.
#[derive(Debug, Clone)]
pub enum Status {
    Completed,
    Partial(String),
    Failed(String, ErrorMessageType),
    Created,
    Initialised,
}

/// The display name of a status: its prefix for the tagged line form.
pub open spec fn spec_status_text(s: Status) -> Seq<char> {
    match s {
        Status::Completed => "Completed"@,
        Status::Partial(err) => "Partial : "@ + err@,
        Status::Failed(err, _) => "Failed : "@ + err@ + " "@,
        Status::Created => "Created"@,
        Status::Initialised => "Initialised"@,
    }
}

impl Status {
    /// Replaces this status when `value` carries one of the display forms;
    /// a partial or failed text keeps its trailing detail. Any other text
    /// leaves the status unchanged. A failed form comes back as partial:
    /// the structured error detail does not survive the round trip.
    pub fn replace_from_str(&mut self, value: &str)
        ensures
            value@ == "Completed"@ ==> *final(self) is Completed,
            value@ == "Created"@ ==> *final(self) is Created,
            value@ == "Initialised"@ ==> *final(self) is Initialised,
            (value@ != "Completed"@ && value@ != "Created"@ && value@ != "Initialised"@
                && crate::text::spec_starts_with(value@, "Partial : "@)) ==> match *final(self) {
                Status::Partial(detail) => detail@ == value@.skip(10),
                _ => false,
            },
            (value@ != "Completed"@ && value@ != "Created"@ && value@ != "Initialised"@
                && !crate::text::spec_starts_with(value@, "Partial : "@)
                && crate::text::spec_starts_with(value@, "Failed : "@)) ==> match *final(self) {
                Status::Partial(detail) => detail@ == value@.skip(9),
                _ => false,
            },
            (value@ != "Completed"@ && value@ != "Created"@ && value@ != "Initialised"@
                && !crate::text::spec_starts_with(value@, "Partial : "@)
                && !crate::text::spec_starts_with(value@, "Failed : "@)) ==> *final(self) == *old(
                self,
            ),
    {
        proof {
            reveal_strlit("Completed");
            reveal_strlit("Created");
            reveal_strlit("Initialised");
            reveal_strlit("Partial : ");
            reveal_strlit("Failed : ");
            assert("Completed"@.len() == 9);
            assert("Created"@.len() == 7);
            assert("Initialised"@.len() == 11);
            assert("Partial : "@.len() == 10);
            assert("Failed : "@.len() == 9);
        }
        if crate::text::str_eq(value, "Completed") {
            *self = Status::Completed;
        } else if crate::text::str_eq(value, "Created") {
            *self = Status::Created;
        } else if crate::text::str_eq(value, "Initialised") {
            *self = Status::Initialised;
        } else {
            if crate::text::starts_with(value, "Partial : ") {
                *self = Status::Partial(crate::text::skip_chars(value, 10));
            } else if crate::text::starts_with(value, "Failed : ") {
                *self = Status::Partial(crate::text::skip_chars(value, 9));
            }
        }
    }
}

/// Parameters asking the API to stream.
pub struct StreamParam {
    pub stream: bool,
}

/// An error event of the stream.
pub struct StreamError {
    pub object: String,
    pub type_: String,
    pub message: ErrorMessageType,
    pub param: Option<String>,
    pub code: Option<String>,
}

/// The error payload: structured details, a plain string, or nothing.
#[derive(Debug, Clone)]
pub enum ErrorMessageType {
    Details(ErrorMessage),
    Simple(String),
    Empty,
}

/// A list of structured error details.
#[derive(Debug, Clone)]
pub struct ErrorMessage {
    pub detail: Vec<ErrorDetail>,
}

/// One structured error detail.
#[derive(Debug, Clone)]
pub struct ErrorDetail {
    pub type_: String,
    pub loc: Vec<String>,
    pub msg: String,
}

} // verus!

//! The status line of a transcript window: the page indicator and the
//! fields of the current message, composed from a pre-computed template.

use vstd::prelude::*;

use crate::chat::Page;
use crate::mistral::message::Role;
use crate::mistral::stream::{Status, Usage};
use crate::text::push_char;

verus! {

/// Where one window stands in its transcript: on the header, on a sent
/// message, or on the prompt, always out of the total count.
#[derive(Debug, Clone, Copy, PartialEq, Eq, Structural)]
pub enum PageStatus {
    Header(usize),
    Prompt(usize),
    Message(usize, usize),
}

impl PageStatus {
    /// The indicator of a page: messages count from one.
    pub fn new(page: &Page, nb_messages: usize) -> (r: PageStatus)
        ensures
            match page {
                Page::Header => r == PageStatus::Header(nb_messages),
                Page::Prompt(_) => r == PageStatus::Prompt(nb_messages),
                Page::Message(index) => *index < usize::MAX ==> r == PageStatus::Message(
                    (*index + 1) as usize,
                    nb_messages,
                ),
            },
    {
        match page {
            Page::Header => PageStatus::Header(nb_messages),
            Page::Prompt(_) => PageStatus::Prompt(nb_messages),
            Page::Message(index) => PageStatus::Message(
                if *index < usize::MAX {
                    *index + 1
                } else {
                    *index
                },
                nb_messages,
            ),
        }
    }

    /// The indicator's text: `-/n` on the header, `Prompt/n` on the prompt,
    /// `Message k/n` on a message.
    pub fn text(&self) -> (r: String) {
        match self {
            PageStatus::Header(total) => {
                let mut out = "-/".to_owned();
                let t = crate::text::u32_text(clamp_u32(*total));
                out.append(t.as_str());
                out
            },
            PageStatus::Prompt(total) => {
                let mut out = "Prompt/".to_owned();
                let t = crate::text::u32_text(clamp_u32(*total));
                out.append(t.as_str());
                out
            },
            PageStatus::Message(nb, total) => {
                let mut out = "Message ".to_owned();
                let n = crate::text::u32_text(clamp_u32(*nb));
                out.append(n.as_str());
                push_char(&mut out, '/');
                let t = crate::text::u32_text(clamp_u32(*total));
                out.append(t.as_str());
                out
            },
        }
    }
}

/// A count clamped into a `u32` for display.
pub fn clamp_u32(n: usize) -> (r: u32)
    ensures
        n <= u32::MAX ==> r == n,
        n > u32::MAX ==> r == u32::MAX,
{
    if n <= 0xffff_ffff {
        n as u32
    } else {
        u32::MAX
    }
}

/// The usage shown for one message: the prompt tokens for user, system and
/// tool messages, `completion/limit` for an assistant message.
pub fn parse_usage(usage: &Usage, role: &Role, max_tokens: &Option<u32>) -> (r: String) {
    match role {
        Role::Assistant => {
            let mut out = crate::text::u32_text(usage.completion_tokens);
            push_char(&mut out, '/');
            match max_tokens {
                Some(n) => {
                    let t = crate::text::u32_text(*n);
                    out.append(t.as_str());
                },
                None => {
                    out.append("inf");
                },
            }
            out
        },
        _ => crate::text::u32_text(usage.prompt_tokens),
    }
}

/// The highlighted role marker: the highlight group around the role's name.
pub fn parse_role(role: &Role, highlight_group: &str) -> (r: String) {
    let mut out = "%#".to_owned();
    out.append(highlight_group);
    push_char(&mut out, '#');
    out.append(role.name());
    push_char(&mut out, ' ');
    out
}

/// The highlighted status text: a marker word per status, the partial and
/// failed texts carrying their escaped reason.
pub fn parse_status(status: &Status, highlight_group: &str) -> (r: String) {
    let mut out = "%#".to_owned();
    out.append(highlight_group);
    push_char(&mut out, '#');
    match status {
        Status::Completed => {
            out.append("Completed");
        },
        Status::Partial(err) => {
            out.append("Partial: ");
            let escaped = escape(err.as_str());
            out.append(escaped.as_str());
        },
        Status::Failed(err, _) => {
            out.append("Failed: ");
            let escaped = escape(err.as_str());
            out.append(escaped.as_str());
        },
        Status::Created => {
            out.append("Created");
        },
        Status::Initialised => {
            out.append("Processing");
        },
    }
    out
}

/// The highlight group of the chat's name.
pub const HL_NAME: &'static str = "MistralBarStatus";

/// The highlight group of the page indicator.
pub const HL_PAGE: &'static str = "MistralBarPage";

/// The highlight group of the model name.
pub const HL_MODEL: &'static str = "MistralBarModel";

/// The highlight group of the usage counters.
pub const HL_USAGE: &'static str = "MistralBarUsage";

/// The highlight group of the mode name.
pub const HL_MODE: &'static str = "MistralBarMode";

/// `s` with every occurrence of `marker` replaced by `value`, scanning left
/// to right.
pub open spec fn spec_replace(s: Seq<char>, marker: Seq<char>, value: Seq<char>) -> Seq<char>
    decreases s.len(),
{
    if s.len() == 0 {
        Seq::empty()
    } else if marker.len() >= 1 && marker.len() <= s.len() && s.take(marker.len() as int)
        == marker {
        value + spec_replace(s.skip(marker.len() as int), marker, value)
    } else {
        seq![s[0]] + spec_replace(s.skip(1), marker, value)
    }
}

/// Whether `marker` sits in `s` at position `i`.
fn matches_at(s: &str, i: usize, marker: &str) -> (r: bool)
    requires
        i <= s@.len(),
    ensures
        r == (i + marker@.len() <= s@.len() && s@.skip(i as int).take(marker@.len() as int)
            == marker@),
{
    let len = s.unicode_len();
    let mlen = marker.unicode_len();
    if mlen > len - i {
        return false;
    }
    let mut k: usize = 0;
    while k < mlen
        invariant
            k <= mlen,
            i + mlen <= len,
            len == s@.len(),
            mlen == marker@.len(),
            forall|j: int| 0 <= j < k ==> s@[i + j] == marker@[j],
        decreases mlen - k,
    {
        if s.get_char(i + k) != marker.get_char(k) {
            proof {
                assert(s@.skip(i as int).take(mlen as int)[k as int] != marker@[k as int]);
            }
            return false;
        }
        k = k + 1;
    }
    proof {
        assert(s@.skip(i as int).take(mlen as int) =~= marker@);
    }
    true
}

/// Replaces every occurrence of `marker` in `s` by `value`; an empty marker
/// leaves the text as it is.
pub fn replace_marker(s: &str, marker: &str, value: &str) -> (r: String)
    ensures
        marker@.len() >= 1 ==> r@ == spec_replace(s@, marker@, value@),
        marker@.len() == 0 ==> r@ == s@,
{
    let len = s.unicode_len();
    let mlen = marker.unicode_len();
    if mlen == 0 {
        return s.to_owned();
    }
    let mut out = String::new();
    let mut i: usize = 0;
    proof {
        assert(s@.skip(0) =~= s@);
    }
    while i < len
        invariant
            i <= len,
            len == s@.len(),
            mlen == marker@.len(),
            mlen >= 1,
            spec_replace(s@, marker@, value@) == out@ + spec_replace(
                s@.skip(i as int),
                marker@,
                value@,
            ),
        decreases len - i,
    {
        let ghost prev = out@;
        if matches_at(s, i, marker) {
            out.append(value);
            proof {
                assert(s@.skip(i as int).skip(mlen as int) =~= s@.skip(i + mlen));
                assert(spec_replace(s@.skip(i as int), marker@, value@) == value@ + spec_replace(
                    s@.skip(i + mlen),
                    marker@,
                    value@,
                ));
                assert(prev + (value@ + spec_replace(s@.skip(i + mlen), marker@, value@)) =~= out@
                    + spec_replace(s@.skip(i + mlen), marker@, value@));
            }
            i = i + mlen;
        } else {
            let c = s.get_char(i);
            push_char(&mut out, c);
            proof {
                assert(s@.skip(i as int)[0] == s@[i as int]);
                assert(s@.skip(i as int).skip(1) =~= s@.skip(i + 1));
                assert(spec_replace(s@.skip(i as int), marker@, value@) == seq![c] + spec_replace(
                    s@.skip(i + 1),
                    marker@,
                    value@,
                ));
                assert(prev + (seq![c] + spec_replace(s@.skip(i + 1), marker@, value@)) =~= out@
                    + spec_replace(s@.skip(i + 1), marker@, value@));
            }
            i = i + 1;
        }
    }
    proof {
        assert(s@.skip(len as int) =~= Seq::<char>::empty());
        assert(out@ + Seq::<char>::empty() =~= out@);
    }
    out
}

/// What part of a status line went stale: everything, or only its page
/// indicator.
#[derive(Debug, Clone, Copy, PartialEq, Eq, Structural)]
pub enum Outdate {
    Full,
    Page,
}

/// One window's status line: the page's template, the template with the
/// message fields already substituted, and the finished line.
#[derive(Debug, Clone)]
pub struct StatusLine {
    pub pre_computed: String,
    pub computed_without_page: String,
    pub computed: String,
    pub outdated: Option<Outdate>,
}

impl StatusLine {
    /// A fresh, fully stale status line for one page.
    pub fn new(page: &Page) -> (r: StatusLine)
        ensures
            r.outdated == Some(Outdate::Full),
    {
        StatusLine {
            pre_computed: StatusLine::pre_computed(page),
            computed_without_page: String::new(),
            computed: String::new(),
            outdated: Some(Outdate::Full),
        }
    }

    /// The template of a page: its highlighted fields with one marker per
    /// substituted value.
    pub fn pre_computed(page: &Page) -> (r: String) {
        let mut out = String::new();
        match page {
            Page::Header => {
                out.append("%#");
                out.append(HL_NAME);
                out.append("#%{NAME} | %#");
                out.append(HL_PAGE);
                out.append("# %{PAGE} | %#");
                out.append(HL_USAGE);
                out.append("# %{H_USAGE_PROMPT} | %#");
                out.append(HL_USAGE);
                out.append("# %{H_USAGE_COMPLETION}");
            },
            _ => {
                out.append("%#");
                out.append(HL_NAME);
                out.append("#%{NAME} %{ROLE} | %#");
                out.append(HL_PAGE);
                out.append("# %{PAGE} | %#");
                out.append(HL_MODEL);
                out.append("# %{MODEL} | %#");
                out.append(HL_USAGE);
                out.append("# %{USAGE} | %#");
                out.append(HL_MODE);
                out.append("#%{MODE} %{STATUS}");
            },
        }
        out
    }

    /// Substitutes one page and its message count into the line.
    pub fn update_page(&mut self, page: &Page, len_messages: usize) {
        let page_status = PageStatus::new(page, len_messages);
        let text = page_status.text();
        self.computed = replace_marker(self.computed_without_page.as_str(), "%{PAGE}", text.as_str());
    }

    /// Substitutes one message's fields into the template.
    pub fn update_message(&mut self, msg: &crate::chat::MessageState, chat_name: &str) {
        let name = escape(chat_name);
        let mut line = replace_marker(self.pre_computed.as_str(), "%{NAME}", name.as_str());
        line = replace_marker(line.as_str(), "%{MODEL}", msg.model.name());
        line = replace_marker(line.as_str(), "%{MODE}", msg.mode.name());
        let status = parse_status(&msg.status, status_highlight_group(&msg.status));
        line = replace_marker(line.as_str(), "%{STATUS}", status.as_str());
        let role = parse_role(&msg.message.role, role_highlight_group(&msg.message.role));
        line = replace_marker(line.as_str(), "%{ROLE}", role.as_str());
        let usage = parse_usage(&msg.usage, &msg.message.role, &msg.params.max_tokens);
        line = replace_marker(line.as_str(), "%{USAGE}", usage.as_str());
        self.computed_without_page = line;
    }

    /// Substitutes the header's fields into the template, and its page.
    pub fn update_header(&mut self, metadata: &crate::chat::ChatMetadata, len_messages: usize) {
        let name = escape(metadata.name.as_str());
        let mut line = replace_marker(self.pre_computed.as_str(), "%{NAME}", name.as_str());
        let prompt = crate::text::u32_text(metadata.usage.prompt_tokens);
        line = replace_marker(line.as_str(), "%{H_USAGE_PROMPT}", prompt.as_str());
        let completion = crate::text::u32_text(metadata.usage.completion_tokens);
        line = replace_marker(line.as_str(), "%{H_USAGE_COMPLETION}", completion.as_str());
        self.computed_without_page = line;
        self.update_page(&Page::Header, len_messages);
    }

    /// Brings the whole line up to date for one page.
    pub fn update_full(
        &mut self,
        page: &Page,
        messages: &Vec<crate::chat::MessageState>,
        metadata: &crate::chat::ChatMetadata,
    ) {
        let len_messages = messages.len();
        match page {
            Page::Message(msg_index) => {
                if *msg_index < messages.len() {
                    self.update_message(&messages[*msg_index], metadata.name.as_str());
                }
            },
            Page::Prompt(msg_index) => {
                if *msg_index < messages.len() {
                    self.update_message(&messages[*msg_index], metadata.name.as_str());
                }
            },
            Page::Header => {
                self.update_header(metadata, len_messages);
                return;
            },
        }
        self.update_page(page, len_messages);
        self.outdated = None;
    }
}

/// The highlight group of a role's marker.
pub fn role_highlight_group(role: &Role) -> (r: &'static str) {
    match role {
        Role::User => "MistralRoleUser",
        Role::System => "MistralRoleSystem",
        Role::Assistant => "MistralRoleAssistant",
        Role::Tool => "MistralRoleTool",
    }
}

/// The highlight group of a status's marker.
pub fn status_highlight_group(status: &Status) -> (r: &'static str) {
    match status {
        Status::Completed => "MistralStatusCompleted",
        Status::Partial(_) => "MistralStatusPartial",
        Status::Failed(_, _) => "MistralStatusFailed",
        Status::Created => "MistralStatusCreated",
        Status::Initialised => "MistralStatusInitialised",
    }
}

/// Escapes a text for the status line: every `%` doubles, every `|` takes a
/// doubled `%` in front.
pub open spec fn spec_bar_escape(s: Seq<char>) -> Seq<char>
    decreases s.len(),
{
    if s.len() == 0 {
        Seq::empty()
    } else if s[0] == '%' {
        seq!['%', '%'] + spec_bar_escape(s.skip(1))
    } else if s[0] == '|' {
        seq!['%', '%', '|'] + spec_bar_escape(s.skip(1))
    } else {
        seq![s[0]] + spec_bar_escape(s.skip(1))
    }
}

/// Escapes a text for the status line.
pub fn escape(s: &str) -> (r: String)
    ensures
        r@ == spec_bar_escape(s@),
{
    let len = s.unicode_len();
    let mut out = String::new();
    let mut i: usize = 0;
    proof {
        assert(s@.skip(0) =~= s@);
    }
    while i < len
        invariant
            i <= len,
            len == s@.len(),
            spec_bar_escape(s@) == out@ + spec_bar_escape(s@.skip(i as int)),
        decreases len - i,
    {
        let c = s.get_char(i);
        proof {
            assert(s@.skip(i as int)[0] == s@[i as int]);
            assert(s@.skip(i as int).skip(1) =~= s@.skip(i + 1));
        }
        let ghost prev = out@;
        if c == '%' {
            push_char(&mut out, '%');
            push_char(&mut out, '%');
            proof {
                assert(prev + (seq!['%', '%'] + spec_bar_escape(s@.skip(i + 1))) =~= out@
                    + spec_bar_escape(s@.skip(i + 1)));
            }
        } else if c == '|' {
            push_char(&mut out, '%');
            push_char(&mut out, '%');
            push_char(&mut out, '|');
            proof {
                assert(prev + (seq!['%', '%', '|'] + spec_bar_escape(s@.skip(i + 1))) =~= out@
                    + spec_bar_escape(s@.skip(i + 1)));
            }
        } else {
            push_char(&mut out, c);
            proof {
                assert(prev + (seq![c] + spec_bar_escape(s@.skip(i + 1))) =~= out@
                    + spec_bar_escape(s@.skip(i + 1)));
            }
        }
        i = i + 1;
    }
    proof {
        assert(s@.skip(len as int) =~= Seq::<char>::empty());
        assert(out@ + Seq::<char>::empty() =~= out@);
    }
    out
}

} // verus!

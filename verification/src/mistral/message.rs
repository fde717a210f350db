//! Chat messages and the roles that speak them.

use vstd::prelude::*;

use super::tools::ToolCall;

verus! {

/// One chat message, as sent to and received from the completion API.
#[derive(Debug, Clone)]
pub struct Message {
    pub role: Role,
    pub content: String,
    pub prefix: Option<bool>,
    pub tool_calls: Option<Vec<ToolCall>>,
    pub tool_call_id: Option<String>,
    pub name: Option<String>,
}

impl Message {
    /// An empty assistant message.
    pub fn empty() -> (r: Message)
        ensures
            r.role == Role::Assistant,
            r.content@ == Seq::<char>::empty(),
            r.prefix is None,
            r.tool_calls is None,
            r.tool_call_id is None,
            r.name is None,
    {
        Message {
            role: Role::Assistant,
            content: String::new(),
            prefix: None,
            tool_calls: None,
            tool_call_id: None,
            name: None,
        }
    }

    /// The error text sent back when a tool name is unknown: the failing
    /// name, then every existing name quoted, comma-separated, in brackets.
    pub fn tool_name_does_not_exist(wrong_name: &str, existing_names: Vec<&str>) -> (r: String)
        ensures
            r@ == "Failed : tool '"@ + wrong_name@ + "' does not exist. Existing names are : ["@
                + spec_quoted_names(existing_names@, 0) + seq![']'],
    {
        let ghost head = "Failed : tool '"@ + wrong_name@
            + "' does not exist. Existing names are : ["@;
        let mut out = "Failed : tool '".to_owned();
        out.append(wrong_name);
        out.append("' does not exist. Existing names are : [");
        proof {
            assert(out@ =~= head);
        }
        let mut i: usize = 0;
        while i < existing_names.len()
            invariant
                i <= existing_names@.len(),
                out@ + spec_quoted_names(existing_names@, i as int) == head + spec_quoted_names(
                    existing_names@,
                    0,
                ),
                i > 0 ==> out@.len() > 0,
                i == 0 ==> out@ == head,
            decreases existing_names.len() - i,
        {
            let ghost prev = out@;
            if i > 0 {
                out.append(", ");
            }
            crate::text::push_char(&mut out, '"');
            out.append(existing_names[i]);
            crate::text::push_char(&mut out, '"');
            proof {
                let seg: Seq<char> = (if i > 0 {
                    ", "@
                } else {
                    Seq::<char>::empty()
                }) + seq!['"'] + existing_names@[i as int]@ + seq!['"'];
                assert(out@ =~= prev + seg);
                assert(spec_quoted_names(existing_names@, i as int) == seg + spec_quoted_names(
                    existing_names@,
                    i + 1,
                ));
                assert(prev + (seg + spec_quoted_names(existing_names@, i + 1)) =~= out@
                    + spec_quoted_names(existing_names@, i + 1));
            }
            i = i + 1;
        }
        proof {
            assert(spec_quoted_names(existing_names@, existing_names@.len() as int)
                =~= Seq::<char>::empty());
            assert(out@ + Seq::<char>::empty() =~= out@);
        }
        crate::text::push_char(&mut out, ']');
        out
    }
}

/// The existing tool names, each in double quotes, comma-separated, from
/// index `i` on.
pub open spec fn spec_quoted_names(names: Seq<&str>, i: int) -> Seq<char>
    decreases names.len() - i,
{
    if i < 0 || i >= names.len() {
        Seq::empty()
    } else {
        (if i > 0 {
            ", "@
        } else {
            Seq::<char>::empty()
        }) + seq!['"'] + names[i]@ + seq!['"'] + spec_quoted_names(names, i + 1)
    }
}

/// Who speaks one message.
#[derive(Debug, Clone, Copy, PartialEq, Eq, Structural)]
pub enum Role {
    User,
    System,
    Assistant,
    Tool,
}

/// The display name of a role.
pub open spec fn spec_role_name(r: Role) -> Seq<char> {
    match r {
        Role::User => "User"@,
        Role::System => "System"@,
        Role::Assistant => "Assistant"@,
        Role::Tool => "Tool"@,
    }
}

impl Role {
    /// The display name of this role.
    pub fn name(&self) -> (r: &'static str)
        ensures
            r@ == spec_role_name(*self),
    {
        match self {
            Role::User => "User",
            Role::System => "System",
            Role::Assistant => "Assistant",
            Role::Tool => "Tool",
        }
    }

    /// Replaces this role when `value` is one of the display names; any
    /// other text leaves it unchanged.
    pub fn replace_from_str(&mut self, value: &str)
        ensures
            value@ == "User"@ ==> *final(self) == Role::User,
            value@ == "System"@ ==> *final(self) == Role::System,
            value@ == "Assistant"@ ==> *final(self) == Role::Assistant,
            value@ == "Tool"@ ==> *final(self) == Role::Tool,
            (value@ != "User"@ && value@ != "System"@ && value@ != "Assistant"@ && value@
                != "Tool"@) ==> *final(self) == *old(self),
    {
        proof {
            reveal_strlit("User");
            reveal_strlit("System");
            reveal_strlit("Assistant");
            reveal_strlit("Tool");
            assert("User"@.len() == 4);
            assert("System"@.len() == 6);
            assert("Assistant"@.len() == 9);
            assert("Tool"@.len() == 4);
            assert("User"@[0] == 'U');
            assert("Tool"@[0] == 'T');
        }
        if crate::text::str_eq(value, "User") {
            *self = Role::User;
        } else if crate::text::str_eq(value, "System") {
            *self = Role::System;
        } else if crate::text::str_eq(value, "Assistant") {
            *self = Role::Assistant;
        } else if crate::text::str_eq(value, "Tool") {
            *self = Role::Tool;
        }
    }
}

} // verus!

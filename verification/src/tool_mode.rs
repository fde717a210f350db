//! The tool modes a chat can run in, and the code tools' argument records.

pub mod code_refactorisation;

use vstd::prelude::*;

verus! {

/// Which set of tools a chat offers the model.
#[derive(Debug, Clone, Copy, PartialEq, Eq, Structural)]
pub enum Mode {
    NoTools,
    CodeRefactorisation,
}

/// The display name of a mode.
pub open spec fn spec_mode_name(m: Mode) -> Seq<char> {
    match m {
        Mode::NoTools => "None"@,
        Mode::CodeRefactorisation => "CodeRefactorisation"@,
    }
}

impl Mode {
    /// The display name of this mode.
    pub fn name(&self) -> (r: &'static str)
        ensures
            r@ == spec_mode_name(*self),
    {
        match self {
            Mode::NoTools => "None",
            Mode::CodeRefactorisation => "CodeRefactorisation",
        }
    }

    /// Replaces this mode when `value` is one of the display names; any
    /// other text leaves it unchanged.
    pub fn replace_from_str(&mut self, value: &str)
        ensures
            value@ == "None"@ ==> *final(self) == Mode::NoTools,
            value@ == "CodeRefactorisation"@ ==> *final(self) == Mode::CodeRefactorisation,
            (value@ != "None"@ && value@ != "CodeRefactorisation"@) ==> *final(self) == *old(self),
    {
        proof {
            reveal_strlit("None");
            reveal_strlit("CodeRefactorisation");
            assert("None"@.len() == 4);
            assert("CodeRefactorisation"@.len() == 19);
        }
        if crate::text::str_eq(value, "None") {
            *self = Mode::NoTools;
        } else if crate::text::str_eq(value, "CodeRefactorisation") {
            *self = Mode::CodeRefactorisation;
        }
    }
}

} // verus!

//! Notification levels and the notification record handed to the editor's
//! message area.

use vstd::prelude::*;

verus! {

/// The severity of one notification.
#[derive(Debug, Clone, Copy, PartialEq, Eq, Structural)]
pub enum NotifyLevel {
    Trace,
    Debug,
    Info,
    Warn,
    Error,
    Off,
}

/// The rank of a level: higher levels matter more.
pub open spec fn spec_level_rank(l: NotifyLevel) -> int {
    match l {
        NotifyLevel::Trace => 0,
        NotifyLevel::Debug => 1,
        NotifyLevel::Info => 2,
        NotifyLevel::Warn => 3,
        NotifyLevel::Error => 4,
        NotifyLevel::Off => 5,
    }
}

/// The display name of a level.
pub open spec fn spec_level_name(l: NotifyLevel) -> Seq<char> {
    match l {
        NotifyLevel::Trace => "Trace"@,
        NotifyLevel::Debug => "Debug"@,
        NotifyLevel::Info => "Info"@,
        NotifyLevel::Warn => "Warn"@,
        NotifyLevel::Error => "Error"@,
        NotifyLevel::Off => "Off"@,
    }
}

impl NotifyLevel {
    /// The rank of this level.
    pub fn rank(&self) -> (r: u8)
        ensures
            r as int == spec_level_rank(*self),
    {
        match self {
            NotifyLevel::Trace => 0,
            NotifyLevel::Debug => 1,
            NotifyLevel::Info => 2,
            NotifyLevel::Warn => 3,
            NotifyLevel::Error => 4,
            NotifyLevel::Off => 5,
        }
    }

    /// Whether this level is at least as severe as `threshold`.
    pub fn at_least(&self, threshold: &NotifyLevel) -> (r: bool)
        ensures
            r == (spec_level_rank(*self) >= spec_level_rank(*threshold)),
    {
        self.rank() >= threshold.rank()
    }

    /// The display name of this level.
    pub fn name(&self) -> (r: &'static str)
        ensures
            r@ == spec_level_name(*self),
    {
        match self {
            NotifyLevel::Trace => "Trace",
            NotifyLevel::Debug => "Debug",
            NotifyLevel::Info => "Info",
            NotifyLevel::Warn => "Warn",
            NotifyLevel::Error => "Error",
            NotifyLevel::Off => "Off",
        }
    }

    /// The level of a display name or of a rank numeral; any other text
    /// falls back to `Warn`.
    pub fn from_text(value: &str) -> (r: NotifyLevel) {
        let by_number = crate::text::parse_u32(value);
        match by_number {
            Some(0) => NotifyLevel::Trace,
            Some(1) => NotifyLevel::Debug,
            Some(2) => NotifyLevel::Info,
            Some(3) => NotifyLevel::Warn,
            Some(4) => NotifyLevel::Error,
            Some(5) => NotifyLevel::Off,
            Some(_) => NotifyLevel::Warn,
            None => {
                if crate::text::str_eq(value, "Trace") {
                    NotifyLevel::Trace
                } else if crate::text::str_eq(value, "Debug") {
                    NotifyLevel::Debug
                } else if crate::text::str_eq(value, "Info") {
                    NotifyLevel::Info
                } else if crate::text::str_eq(value, "Warn") {
                    NotifyLevel::Warn
                } else if crate::text::str_eq(value, "Error") {
                    NotifyLevel::Error
                } else if crate::text::str_eq(value, "Off") {
                    NotifyLevel::Off
                } else {
                    NotifyLevel::Warn
                }
            },
        }
    }
}

/// One notification: its severity, its text, and where it was raised.
#[derive(Debug, Clone)]
pub struct Notification {
    pub level: NotifyLevel,
    pub message: String,
    pub location: String,
}

impl Notification {
    /// A notification at the given level.
    pub fn new(level: NotifyLevel, message: String, location: String) -> (r: Notification)
        ensures
            r.level == level,
            r.message@ == message@,
            r.location@ == location@,
    {
        Notification { level, message, location }
    }

    /// The display form: location, level and message.
    pub fn text(&self) -> (r: String)
        ensures
            r@ == seq!['['] + self.location@ + "] "@ + spec_level_name(self.level) + " : "@
                + self.message@,
    {
        let mut out = String::new();
        crate::text::push_char(&mut out, '[');
        out.append(self.location.as_str());
        out.append("] ");
        out.append(self.level.name());
        out.append(" : ");
        out.append(self.message.as_str());
        proof {
            assert(out@ =~= seq!['['] + self.location@ + "] "@ + spec_level_name(self.level)
                + " : "@ + self.message@);
        }
        out
    }
}

/// Wraps plain text as a notification of each severity.
pub trait IntoNotification: Sized {
    fn into_error(self) -> Notification;

    fn into_warn(self) -> Notification;

    fn into_info(self) -> Notification;
}

impl IntoNotification for String {
    fn into_error(self) -> (r: Notification) {
        Notification { level: NotifyLevel::Error, message: self, location: String::new() }
    }

    fn into_warn(self) -> (r: Notification) {
        Notification { level: NotifyLevel::Warn, message: self, location: String::new() }
    }

    fn into_info(self) -> (r: Notification) {
        Notification { level: NotifyLevel::Info, message: self, location: String::new() }
    }
}

} // verus!

//! Log records and their formatting. Writing them out, and the channels
//! carrying them, belong to the surrounding system.

use vstd::prelude::*;

use crate::notify::{NotifyLevel, spec_level_name, spec_level_rank};

verus! {

/// The severity scale of the log.
pub type Level = NotifyLevel;

/// One log record.
#[derive(Debug, Clone)]
pub struct Log {
    pub level: Level,
    pub message: String,
}

impl Log {
    /// A record at the given level.
    pub fn new(level: Level, message: String) -> (r: Log)
        ensures
            r.level == level,
            r.message@ == message@,
    {
        Log { level, message }
    }
}

/// Formats one record for the log file when it reaches the threshold:
/// `[logger:timestamp:level] message`. Records below the threshold are
/// dropped.
pub fn format_log(logger: &str, timestamp: u32, threshold: &Level, log: Log) -> (r: Option<String>)
    ensures
        match r {
            Some(line) => spec_level_rank(log.level) >= spec_level_rank(*threshold) && line@
                == seq!['['] + logger@ + seq![':'] + crate::text::spec_u32_text(timestamp as int)
                + seq![':'] + spec_level_name(log.level) + "] "@ + log.message@,
            None => spec_level_rank(log.level) < spec_level_rank(*threshold),
        },
{
    if log.level.at_least(threshold) {
        let mut out = String::new();
        crate::text::push_char(&mut out, '[');
        out.append(logger);
        crate::text::push_char(&mut out, ':');
        let ts = crate::text::u32_text(timestamp);
        out.append(ts.as_str());
        crate::text::push_char(&mut out, ':');
        out.append(log.level.name());
        out.append("] ");
        out.append(log.message.as_str());
        proof {
            assert(out@ =~= seq!['['] + logger@ + seq![':'] + crate::text::spec_u32_text(
                timestamp as int,
            ) + seq![':'] + spec_level_name(log.level) + "] "@ + log.message@);
        }
        Some(out)
    } else {
        None
    }
}

} // verus!

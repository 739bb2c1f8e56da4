//! The application's log level: its named levels, their wire names, and
//! the parsing of a caller-supplied level, case-insensitively. Only the
//! four everyday levels can be selected from outside; the remaining two
//! exist so the current level can always be reported.

use vstd::prelude::*;

use crate::strnum::str_eq;

verus! {

/// A log output level.
#[derive(Clone, Copy, Debug, PartialEq, Eq, Structural)]
pub enum LogLevel {
    Error,
    Warn,
    Info,
    Debug,
    Trace,
    Off,
}

impl LogLevel {
    /// The lowercase wire name of the level.
    pub fn name(&self) -> (m: &'static str)
        ensures
            match self {
                LogLevel::Error => m@ == "error"@,
                LogLevel::Warn => m@ == "warn"@,
                LogLevel::Info => m@ == "info"@,
                LogLevel::Debug => m@ == "debug"@,
                LogLevel::Trace => m@ == "trace"@,
                LogLevel::Off => m@ == "off"@,
            },
    {
        match self {
            LogLevel::Error => "error",
            LogLevel::Warn => "warn",
            LogLevel::Info => "info",
            LogLevel::Debug => "debug",
            LogLevel::Trace => "trace",
            LogLevel::Off => "off",
        }
    }
}

/// The lowercase form of a string. The standard library computes it; the
/// name stands for its answer, which depends on the characters alone.
pub uninterp spec fn lower_of(s: Seq<char>) -> Seq<char>;

/// Relies on `str::to_lowercase`: the Unicode lowercase form of the
/// string, a function of its characters alone.
#[verifier::external_body]
fn to_lowercase(s: &str) -> (r: String)
    ensures
        r@ == lower_of(s@),
{
    s.to_lowercase()
}

/// Which level a selectable name denotes, over the lowercased input.
pub open spec fn parse_log_level_spec(lowered: Seq<char>) -> Option<LogLevel> {
    if lowered == "error"@ {
        Some(LogLevel::Error)
    } else if lowered == "warn"@ {
        Some(LogLevel::Warn)
    } else if lowered == "info"@ {
        Some(LogLevel::Info)
    } else if lowered == "debug"@ {
        Some(LogLevel::Debug)
    } else {
        None
    }
}

/// Parses a caller-supplied level name, case-insensitively: exactly the
/// four selectable names are accepted; anything else is refused.
pub fn parse_log_level(level: &str) -> (r: Option<LogLevel>)
    ensures
        r == parse_log_level_spec(lower_of(level@)),
{
    let lowered = to_lowercase(level);
    if str_eq(lowered.as_str(), "error") {
        Some(LogLevel::Error)
    } else if str_eq(lowered.as_str(), "warn") {
        Some(LogLevel::Warn)
    } else if str_eq(lowered.as_str(), "info") {
        Some(LogLevel::Info)
    } else if str_eq(lowered.as_str(), "debug") {
        Some(LogLevel::Debug)
    } else {
        None
    }
}

} // verus!

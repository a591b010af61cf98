use vstd::prelude::*;

use std::str::FromStr;

verus! {

/// How much the server logs, from the least to the most.
#[derive(PartialEq, Eq, Structural, Clone, Copy, Debug)]
pub enum LogLevel {
    Error,
    Warn,
    Info,
    Debug,
    Trace,
}

/// The text of a setting with every character in upper case, as Rust's
/// `str::to_uppercase` makes it (Unicode upper-case mapping, the same in every
/// locale).
pub uninterp spec fn uppercase_of(text: Seq<char>) -> Seq<char>;

/// The level that `tracing` reads from a text, if it reads one.
pub uninterp spec fn tracing_level_of(text: Seq<char>) -> Option<LogLevel>;

/// Calls std's `str::to_uppercase`. The contract names its result; it depends on
/// the text alone.
#[verifier::external_body]
fn uppercase(text: &str) -> (upper: String)
    ensures
        upper@ == uppercase_of(text@),
{
    text.to_uppercase()
}

/// Calls `tracing::Level::from_str` and tells its five levels apart. The
/// contract names the result and states what the source of
/// `tracing-core` shows for the upper-case names and the numbers 1 to 5:
/// `ERROR`/`1`, `WARN`/`2`, `INFO`/`3`, `DEBUG`/`4`, `TRACE`/`5`. Other texts
/// that it accepts (other cases of those names, numbers written with a sign or
/// leading zeros) are left to the name.
#[verifier::external_body]
fn parse_tracing_level(text: &str) -> (level: Option<LogLevel>)
    ensures
        level == tracing_level_of(text@),
        text@ == "ERROR"@ || text@ == "1"@ ==> level == Some(LogLevel::Error),
        text@ == "WARN"@ || text@ == "2"@ ==> level == Some(LogLevel::Warn),
        text@ == "INFO"@ || text@ == "3"@ ==> level == Some(LogLevel::Info),
        text@ == "DEBUG"@ || text@ == "4"@ ==> level == Some(LogLevel::Debug),
        text@ == "TRACE"@ || text@ == "5"@ ==> level == Some(LogLevel::Trace),
{
    match tracing::Level::from_str(text) {
        Ok(tracing::Level::ERROR) => Some(LogLevel::Error),
        Ok(tracing::Level::WARN) => Some(LogLevel::Warn),
        Ok(tracing::Level::INFO) => Some(LogLevel::Info),
        Ok(tracing::Level::DEBUG) => Some(LogLevel::Debug),
        // The one level left is TRACE.
        Ok(_) => Some(LogLevel::Trace),
        Err(_) => None,
    }
}

/// The level the server logs at for a `TRACING_LEVEL` setting: the level that
/// `tracing` reads from the setting in upper case, or `Info` when it reads none.
pub open spec fn level_rule(setting: Seq<char>) -> LogLevel {
    match tracing_level_of(uppercase_of(setting)) {
        Some(level) => level,
        None => LogLevel::Info,
    }
}

/// The level to log at once `tracing` has read the setting: the level read,
/// or `Info` when none was.
pub fn level_or_info(parsed: Option<LogLevel>) -> (level: LogLevel)
    ensures
        level == match parsed {
            Some(l) => l,
            None => LogLevel::Info,
        },
{
    match parsed {
        Some(level) => level,
        None => LogLevel::Info,
    }
}

/// Decides the level the server logs at from its `TRACING_LEVEL` setting.
pub fn tracing_level(setting: &str) -> (level: LogLevel)
    ensures
        level == level_rule(setting@),
{
    let upper = uppercase(setting);
    level_or_info(parse_tracing_level(upper.as_str()))
}

} // verus!

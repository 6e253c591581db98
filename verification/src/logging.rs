//! How verbose the service's log is.

use vstd::prelude::*;

verus! {

/// The most verbose kind of event that is still logged.
#[derive(Clone, Copy, Debug, PartialEq, Eq, Structural)]
pub enum LogLevel {
    Error,
    Warn,
    Info,
    Debug,
    Trace,
}

/// The lower-case form of a text, as the standard library computes it.
pub uninterp spec fn lowercase(text: Seq<char>) -> Seq<char>;

/// `str::to_lowercase`: the result is the lower-case form of the argument,
/// which depends on the argument alone.
#[verifier::external_body]
fn to_lowercase(text: &str) -> (lowered: String)
    ensures
        lowered@ == lowercase(text@),
{
    text.to_lowercase()
}

/// The level that a lower-case name stands for, if it names one.
pub open spec fn level_named(name: Seq<char>) -> Option<LogLevel> {
    if name == "error"@ {
        Some(LogLevel::Error)
    } else if name == "warn"@ {
        Some(LogLevel::Warn)
    } else if name == "info"@ {
        Some(LogLevel::Info)
    } else if name == "debug"@ {
        Some(LogLevel::Debug)
    } else if name == "trace"@ {
        Some(LogLevel::Trace)
    } else {
        None
    }
}

/// Whether two texts are the same, character by character.
fn same_text(left: &str, right: &str) -> (same: bool)
    ensures
        same == (left@ == right@),
{
    let left_owned = left.to_owned();
    let right_owned = right.to_owned();
    left_owned == right_owned
}

/// The level that `name` stands for. Only the five names in lower case are
/// known; any other text names no level.
pub fn level_filter_named(name: &str) -> (level: Option<LogLevel>)
    ensures
        level == level_named(name@),
{
    if same_text(name, "error") {
        Some(LogLevel::Error)
    } else if same_text(name, "warn") {
        Some(LogLevel::Warn)
    } else if same_text(name, "info") {
        Some(LogLevel::Info)
    } else if same_text(name, "debug") {
        Some(LogLevel::Debug)
    } else if same_text(name, "trace") {
        Some(LogLevel::Trace)
    } else {
        None
    }
}

/// The level that `level` stands for, whatever the case of its letters.
pub fn string_to_level_filter(level: &String) -> (filter: Option<LogLevel>)
    ensures
        filter == level_named(lowercase(level@)),
{
    let lowered = to_lowercase(level.as_str());
    level_filter_named(lowered.as_str())
}

} // verus!

//! Capture times, and their rendering as text.
//!
//! A capture time is kept as two plain numbers. Reading the clock and turning
//! a time into text are left to the `chrono` crate.

use crate::text::text_of;
use std::fmt::Write;
use vstd::prelude::*;

verus! {

/// A point in time: whole seconds since 1970-01-01 00:00:00 UTC, and the
/// nanoseconds into that second.
#[derive(Clone, Copy, Debug, PartialEq, Eq, Structural)]
pub struct Timestamp {
    pub secs: i64,
    pub nanos: u32,
}

/// What `chrono` writes for the UTC time `secs`, `nanos` under the
/// strftime-style `pattern`; `None` where `chrono` cannot represent the time
/// or rejects the pattern.
pub uninterp spec fn formatted_time(secs: i64, nanos: u32, pattern: Seq<char>) -> Option<Seq<char>>;

/// What `chrono` writes for the UTC time `secs`, `nanos` when it is displayed
/// without a pattern; `None` where `chrono` cannot represent the time.
pub uninterp spec fn displayed_time(secs: i64, nanos: u32) -> Option<Seq<char>>;

/// Reads the system clock with `std::time::SystemTime::now`, turns it into a
/// `chrono::DateTime<Utc>` through `From<SystemTime>` and takes the result
/// apart with `DateTime::timestamp` and `DateTime::timestamp_subsec_nanos`.
/// The conversion takes a clock before 1970 as a negative count of seconds
/// and returns for every time within `chrono`'s range of years, which reaches
/// more than 260 000 years to either side of 1970. Nothing is claimed of the
/// time that comes back.
#[verifier::external_body]
pub(crate) fn current_time() -> Timestamp {
    let now: chrono::DateTime<chrono::Utc> = std::time::SystemTime::now().into();
    Timestamp { secs: now.timestamp(), nanos: now.timestamp_subsec_nanos() }
}

/// Builds the time with `chrono::DateTime::from_timestamp` and writes
/// `DateTime::format(pattern)` into a string. The result is `None` where
/// `from_timestamp` returns `None` or the formatter reports an error;
/// otherwise it is the text `chrono` wrote, which [`formatted_time`] names.
#[verifier::external_body]
pub(crate) fn format_time(time: Timestamp, pattern: &str) -> (text: Option<String>)
    ensures
        text_of(text) == formatted_time(time.secs, time.nanos, pattern@),
{
    let moment = chrono::DateTime::from_timestamp(time.secs, time.nanos)?;
    let mut text = String::new();
    match write!(text, "{}", moment.format(pattern)) {
        Ok(()) => Some(text),
        Err(_) => None,
    }
}

/// Builds the time with `chrono::DateTime::from_timestamp` and takes its
/// `Display` text. The result is `None` where `from_timestamp` returns
/// `None`; otherwise it is the text `chrono` wrote, which [`displayed_time`]
/// names.
#[verifier::external_body]
pub(crate) fn display_time(time: Timestamp) -> (text: Option<String>)
    ensures
        text_of(text) == displayed_time(time.secs, time.nanos),
{
    match chrono::DateTime::from_timestamp(time.secs, time.nanos) {
        Some(moment) => Some(moment.to_string()),
        None => None,
    }
}

} // verus!

//! The wall clock and the calendar, each behind one trusted call.

use chrono::FixedOffset;
use chrono::TimeZone;
use chrono::Utc;
use std::fmt::Write;
use std::time::SystemTime;
use std::time::UNIX_EPOCH;
use vstd::prelude::*;

verus! {

/// The text of the moment `timestamp` seconds after the Unix epoch, in the
/// zone `offset_seconds` east of Greenwich, written after `pattern`; `None`
/// where the calendar cannot hold the moment, the offset is not within a
/// day, or the pattern cannot be written.
pub uninterp spec fn local_time_text(timestamp: u64, offset_seconds: i32, pattern: Seq<char>) -> Option<
    Seq<char>,
>;

/// `SystemTime::now` of std, as whole seconds since the Unix epoch, or
/// `None` where the clock stands before the epoch. Nothing is claimed of the
/// number: two readings may differ in either direction.
#[verifier::external_body]
pub(crate) fn unix_time() -> Option<u64> {
    match SystemTime::now().duration_since(UNIX_EPOCH) {
        Ok(elapsed) => Some(elapsed.as_secs()),
        Err(_) => None,
    }
}

/// `DateTime::format` of chrono, on the moment that `TimeZone::timestamp_opt`
/// gives for `timestamp`, moved into the zone that `FixedOffset::east_opt`
/// gives for `offset_seconds`. The text depends on the three arguments
/// alone; `None` where one of the three calls fails.
#[verifier::external_body]
pub(crate) fn format_local_time(timestamp: u64, offset_seconds: i32, pattern: &str) -> (text:
    Option<String>)
    ensures
        text matches Some(t) ==> local_time_text(timestamp, offset_seconds, pattern@) == Some(t@),
        text is None ==> local_time_text(timestamp, offset_seconds, pattern@) is None,
{
    let utc = Utc.timestamp_opt(i64::try_from(timestamp).ok()?, 0).single()?;
    let zone = FixedOffset::east_opt(offset_seconds)?;
    let mut text = String::new();
    write!(text, "{}", utc.with_timezone(&zone).format(pattern)).ok()?;
    Some(text)
}

} // verus!

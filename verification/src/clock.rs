//! The wall clock and the calendar.

use vstd::prelude::*;

verus! {

/// One hour in milliseconds.
pub const HOUR_MILLIS: i64 = 3_600_000;

/// One day in milliseconds.
pub const DAY_MILLIS: i64 = 86_400_000;

/// The current time in whole milliseconds since the Unix epoch.
///
/// Calls `chrono::Utc::now` and converts the instant with
/// `DateTime::timestamp_millis`. Nothing is claimed of the value: it is
/// whatever the system clock says. `Utc::now` panics if the system clock is
/// set before the epoch.
#[verifier::external_body]
pub(crate) fn now_millis() -> (t: i64) {
    chrono::Utc::now().timestamp_millis()
}

/// The instant `millis` milliseconds after the Unix epoch written by RFC
/// 3339, in UTC; nothing if the calendar cannot hold the instant.
pub uninterp spec fn rfc3339_text(millis: i64) -> Option<Seq<char>>;

/// Writes an instant by RFC 3339.
///
/// Calls `chrono::DateTime::<Utc>::from_timestamp_millis`, which gives no
/// date for an instant beyond chrono's calendar, and writes the date with
/// `DateTime::to_rfc3339`, as in `1996-12-19T16:39:57+00:00`, with as many
/// decimals of the second as the instant has. The text depends on the
/// instant alone; it is named, not described.
#[verifier::external_body]
pub(crate) fn rfc3339(millis: i64) -> (r: Option<String>)
    ensures
        (match r {
            Some(text) => Some(text@),
            None => None,
        }) == rfc3339_text(millis),
{
    match chrono::DateTime::<chrono::Utc>::from_timestamp_millis(millis) {
        Some(instant) => Some(instant.to_rfc3339()),
        None => None,
    }
}

} // verus!

//! Points in time as the catalog reports them, shown as calendar dates.

use vstd::prelude::*;

verus! {

/// The first second that has a calendar date here: the start of the year
/// -262143 (proleptic Gregorian, UTC).
pub const MIN_TIMESTAMP: i64 = -8_334_601_228_800;

/// The last second that has a calendar date here: the end of the year
/// 262142 (proleptic Gregorian, UTC).
pub const MAX_TIMESTAMP: i64 = 8_210_266_876_799;

/// `seconds` after 1970-01-01 00:00:00 UTC lies within the years that have
/// a calendar date here.
pub open spec fn has_date(seconds: i64) -> bool {
    MIN_TIMESTAMP <= seconds <= MAX_TIMESTAMP
}

/// The date and time of day, in UTC, of the instant `seconds` after
/// 1970-01-01 00:00:00 UTC, written as year, month and day separated by
/// `-`, a space, and hour, minute and second separated by `:`.
pub uninterp spec fn timestamp_text(seconds: i64) -> Seq<char>;

/// Writes out the calendar date of `seconds`.
///
/// Trusted: the body is `chrono::NaiveDateTime::from_timestamp` followed by
/// `format` with the pattern `%Y-%m-%d %H:%M:%S`. The contract claims only
/// that the text is a function of `seconds`, which it names
/// `timestamp_text`. `from_timestamp` panics outside the years -262143 to
/// 262142, which `has_date` leaves out; the pattern is a valid one, so
/// writing the text out does not fail.
#[verifier::external_body]
#[allow(deprecated)]
fn utc_text(seconds: i64) -> (text: String)
    requires
        has_date(seconds),
    ensures
        text@ == timestamp_text(seconds),
{
    chrono::NaiveDateTime::from_timestamp(seconds, 0).format("%Y-%m-%d %H:%M:%S").to_string()
}

/// Shows a Unix timestamp as a date and time of day in UTC.
pub fn format_timestamp(seconds: i64) -> (text: String)
    requires
        has_date(seconds),
    ensures
        text@ == timestamp_text(seconds),
{
    utc_text(seconds)
}

/// Shows a Unix timestamp as a date and time of day in UTC, where it has
/// a calendar date.
pub fn try_format_timestamp(seconds: i64) -> (text: Option<String>)
    ensures
        has_date(seconds) ==> text is Some && text->Some_0@ == timestamp_text(seconds),
        !has_date(seconds) ==> text is None,
{
    if MIN_TIMESTAMP <= seconds && seconds <= MAX_TIMESTAMP {
        Some(format_timestamp(seconds))
    } else {
        None
    }
}

} // verus!

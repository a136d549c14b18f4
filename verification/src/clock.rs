//! Points in time: the current one, and how one is written.

use vstd::prelude::*;

verus! {

/// The first second that can be written as a date: the start of the year -262143.
pub const FIRST_TIMESTAMP: i64 = -8_334_601_228_800;

/// The last second that can be written as a date: the end of the year 262142.
pub const LAST_TIMESTAMP: i64 = 8_210_266_876_799;

/// Whether a number of seconds since 1970-01-01T00:00:00Z can be written as a date.
pub open spec fn has_date(timestamp: i64) -> bool {
    FIRST_TIMESTAMP <= timestamp <= LAST_TIMESTAMP
}

/// The RFC 3339 text, in UTC, that `chrono` writes for a timestamp.
pub uninterp spec fn rfc3339_text(timestamp: i64) -> Seq<char>;

/// `chrono::DateTime::from_timestamp`, with no nanoseconds, and `to_rfc3339` on
/// the instant it gives: there is an instant exactly if the timestamp lies in the
/// years that `chrono` covers, and its text is a function of the timestamp alone.
#[verifier::external_body]
pub(crate) fn rfc3339(timestamp: i64) -> (written: Option<String>)
    ensures
        written is Some <==> has_date(timestamp),
        written matches Some(text) ==> text@ == rfc3339_text(timestamp),
{
    chrono::DateTime::from_timestamp(timestamp, 0).map(|instant| instant.to_rfc3339())
}

/// `chrono::Utc::now` and `timestamp` on the instant it gives: seconds since
/// 1970-01-01T00:00:00Z. The clock decides the value; every value that `chrono`
/// can hold lies in the years it covers.
#[verifier::external_body]
pub(crate) fn current_timestamp() -> (now: i64)
    ensures
        has_date(now),
{
    chrono::Utc::now().timestamp()
}

} // verus!

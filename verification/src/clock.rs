//! Block times as calendar text.

use vstd::prelude::*;

verus! {

/// The last second of the year 9999, in seconds since the start of 1970.
pub const LAST_FOUR_DIGIT_SECOND: u64 = 253_402_300_799;

/// The UTC date and time, written as year-month-day hour:minute:second, of the instant `secs`
/// seconds after the start of 1970.
pub uninterp spec fn utc_text(secs: i64) -> Seq<char>;

/// `chrono::NaiveDateTime::from_timestamp_opt`, followed by `NaiveDateTime::format` with the
/// pattern `%Y-%m-%d %H:%M:%S`. The contract claims that the text depends on `secs` alone, and
/// that every instant from 1970 to the end of the year 9999 has one.
#[verifier::external_body]
#[allow(deprecated)]
fn chrono_utc_text(secs: i64) -> (r: Option<String>)
    ensures
        r matches Some(s) ==> s@ == utc_text(secs),
        0 <= secs <= LAST_FOUR_DIGIT_SECOND ==> r is Some,
{
    match chrono::NaiveDateTime::from_timestamp_opt(secs, 0) {
        Some(t) => Some(t.format("%Y-%m-%d %H:%M:%S").to_string()),
        None => None,
    }
}

/// The calendar text of a block time; `None` where the time lies beyond what the calendar holds.
pub fn block_time_text(timestamp: u64) -> (r: Option<String>)
    ensures
        r matches Some(s) ==> timestamp <= i64::MAX && s@ == utc_text(timestamp as i64),
        timestamp <= LAST_FOUR_DIGIT_SECOND ==> r is Some,
{
    if timestamp > 0x7fff_ffff_ffff_ffff {
        None
    } else {
        chrono_utc_text(timestamp as i64)
    }
}

} // verus!

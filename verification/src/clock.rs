//! The time of day, from the machine's clock.
//!
//! Nothing is known of what the clock says, nor of the machine's time zone.
//! The calls that ask for the present moment go through `chrono::Utc::now`,
//! which gives up on a clock that is set before 1970.

use vstd::prelude::*;

verus! {

/// `chrono::Utc::now().timestamp()`: the seconds since the first of January
/// 1970, by the machine's clock.
#[verifier::external_body]
pub(crate) fn unix_now() -> i64 {
    chrono::Utc::now().timestamp()
}

/// `chrono::Utc::now().timestamp_micros()`: the microseconds since the first
/// of January 1970, by the machine's clock.
#[verifier::external_body]
pub(crate) fn unix_now_micros() -> i64 {
    chrono::Utc::now().timestamp_micros()
}

/// A moment written out as year, month, day, hour and minute in the time
/// zone of the machine, through `chrono::DateTime::from_timestamp`,
/// `with_timezone(&chrono::Local)` and `format`. Nothing comes back for a
/// moment that no date can hold. What is written depends on the machine's
/// time zone, so nothing is known of it.
#[verifier::external_body]
pub(crate) fn local_date(timestamp: i64) -> Option<String> {
    chrono::DateTime::from_timestamp(timestamp, 0)
        .map(|d| d.with_timezone(&chrono::Local).format("%Y-%m-%d %H:%M").to_string())
}

} // verus!

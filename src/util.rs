//! Time conversion for feed timestamps, and defaults used by the REST records.

use vstd::prelude::*;
use crate::json::{i64_field, i64_field_of, Json};

verus! {

/// The earliest second (since the Unix epoch, UTC) that the calendar holds: January 1 of year -262143.
pub const MIN_UTC_SECS: i64 = -8334601228800;

/// The latest second (since the Unix epoch, UTC) that the calendar holds: the end of December 31, 262142.
pub const MAX_UTC_SECS: i64 = 8210266876799;

/// Whole seconds of a millisecond count, rounded toward zero.
pub open spec fn secs_of_millis(ms: int) -> int {
    if ms >= 0 {
        ms / 1000
    } else {
        -((-ms) / 1000)
    }
}

/// The UTC instant, in seconds since the epoch, of a millisecond timestamp;
/// `None` where the calendar has no such instant.
pub open spec fn instant_of_millis(ms: i64) -> Option<i64> {
    let s = secs_of_millis(ms as int);
    if MIN_UTC_SECS <= s <= MAX_UTC_SECS {
        Some(s as i64)
    } else {
        None
    }
}

/// Relies on chrono::DateTime::<Utc>::from_timestamp, which gives an instant
/// exactly for the seconds from `MIN_UTC_SECS` to `MAX_UTC_SECS`, and on
/// `DateTime::timestamp`, which gives those seconds back.
#[verifier::external_body]
fn utc_from_timestamp(secs: i64) -> (r: Option<i64>)
    ensures
        r == (if MIN_UTC_SECS <= secs <= MAX_UTC_SECS {
            Some(secs)
        } else {
            None
        }),
{
    chrono::DateTime::from_timestamp(secs, 0).map(|d| d.timestamp())
}

pub struct TimeUtil;

impl TimeUtil {
    /// Converts a millisecond timestamp to a UTC instant in whole seconds
    /// (sub-second digits are dropped); `None` when out of the calendar's range.
    pub fn timestamp_milliseconds(ms: i64) -> (r: Option<i64>)
        ensures
            r == instant_of_millis(ms),
    {
        let secs: i64 = if ms >= 0 {
            ms / 1000
        } else {
            let pos: u64 = (-(ms + 1)) as u64 + 1;
            -((pos / 1000) as i64)
        };
        utc_from_timestamp(secs)
    }
}

/// A millisecond timestamp member, as a UTC instant in seconds.
pub open spec fn instant_field(m: Seq<(String, Json)>, key: Seq<char>) -> Option<i64> {
    match i64_field(m, key) {
        Some(ms) => instant_of_millis(ms),
        None => None,
    }
}

pub fn instant_field_of(m: &Vec<(String, Json)>, key: &str) -> (r: Option<i64>)
    ensures
        r == instant_field(m@, key@),
{
    match i64_field_of(m, key) {
        Some(ms) => TimeUtil::timestamp_milliseconds(ms),
        None => None,
    }
}

pub struct Stocks;

impl Stocks {
    /// Records that do not say whether they are over the counter are not.
    pub fn default_is_otc_ticker() -> (r: bool)
        ensures
            r == false,
    {
        false
    }
}

} // verus!

//! The time of day, in Unix milliseconds.

use std::time::{Duration, SystemTime, UNIX_EPOCH};
use vstd::prelude::*;

verus! {

/// Declares `std::time::SystemTime`, a reading of the system clock.
#[verifier::external_type_specification]
#[verifier::external_body]
pub struct ExSystemTime(std::time::SystemTime);

/// `SystemTime::now` reads the system clock. Nothing can be said of the result.
pub assume_specification[ std::time::SystemTime::now ]() -> (res: SystemTime)
;

/// Wraps `SystemTime::duration_since` from the Unix epoch on; none where the
/// clock is set before it. Nothing is said of the span, which is opaque.
#[verifier::external_body]
fn since_epoch(time: SystemTime) -> (res: Option<Duration>) {
    time.duration_since(UNIX_EPOCH).ok()
}

/// Wraps `Duration::as_millis`. Nothing is said of the result, as the span is
/// opaque.
#[verifier::external_body]
fn whole_millis(span: Duration) -> (res: u128) {
    span.as_millis()
}

/// A timestamp from the milliseconds since the Unix epoch: their lowest 64 bits.
pub fn timestamp(millis: u128) -> (res: i64)
    ensures
        res == millis as i64,
        millis <= i64::MAX ==> res == millis,
{
    #[verifier::truncate]
    let res: i64 = millis as i64;
    res
}

/// The current millisecond timestamp; none where the clock is set before the
/// Unix epoch. What each reading of the clock amounts to: [`timestamp_of`].
pub fn get_current_ts() -> (res: Option<i64>) {
    timestamp_of(match since_epoch(SystemTime::now()) {
        Some(span) => Some(whole_millis(span)),
        None => None,
    })
}

/// A timestamp, with 0 for a clock that is set before the Unix epoch.
pub fn or_epoch(ts: Option<i64>) -> (res: i64)
    ensures
        res == match ts {
            Some(ts) => ts,
            None => 0i64,
        },
{
    match ts {
        Some(ts) => ts,
        None => 0,
    }
}

/// The current millisecond timestamp, with 0 for a clock that is set before the
/// Unix epoch. Nothing is said of the clock's reading.
pub fn now_ms() -> (res: i64) {
    or_epoch(get_current_ts())
}

/// The timestamp of a clock reading: of the milliseconds since the Unix epoch,
/// if the clock is not set before it.
pub fn timestamp_of(millis: Option<u128>) -> (res: Option<i64>)
    ensures
        res == match millis {
            Some(millis) => Some(millis as i64),
            None => None::<i64>,
        },
{
    match millis {
        Some(millis) => Some(timestamp(millis)),
        None => None,
    }
}

} // verus!

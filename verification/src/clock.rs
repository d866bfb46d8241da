//! The wall clock.

use vstd::prelude::*;

verus! {

/// The reading of the wall clock: `chrono::Utc::now()`, taken as
/// `timestamp_millis()`, the milliseconds since the start of 1970 in UTC.
/// Nothing is claimed of the reading, which differs from call to call.
/// chrono panics where the system clock stands before 1970.
#[verifier::external_body]
pub(crate) fn now_millis() -> (t: i64) {
    chrono::Utc::now().timestamp_millis()
}

/// The time in milliseconds since the start of 1970, as the clock gives it;
/// 0 for a reading before that.
pub(crate) fn current_millis() -> (t: u64)
    ensures
        exists|reading: i64| t == #[trigger] millis_of(reading),
{
    let reading = now_millis();
    let t = millis_of_reading(reading);
    assert(t == millis_of(reading));
    t
}

/// A point on the machine's steady clock.
#[verifier::external_type_specification]
#[verifier::external_body]
pub struct ExInstant(std::time::Instant);

/// The present point on the steady clock: `std::time::Instant::now()`.
#[verifier::external_body]
pub(crate) fn timer_start() -> (start: std::time::Instant) {
    std::time::Instant::now()
}

/// The whole milliseconds that have passed since `start`:
/// `Instant::elapsed`, taken as `as_millis()`. Nothing is claimed of the
/// number, which grows from call to call.
#[verifier::external_body]
pub(crate) fn timer_millis(start: &std::time::Instant) -> (millis: u128) {
    start.elapsed().as_millis()
}

/// The milliseconds that have passed since `start`, at most `u64::MAX`.
pub(crate) fn elapsed_millis(start: &std::time::Instant) -> u64 {
    capped_millis(timer_millis(start))
}

/// The time in whole seconds since the start of 1970, as the clock gives it.
pub(crate) fn current_seconds() -> (s: u64)
    ensures
        exists|reading: i64| s == #[trigger] seconds_of(reading),
{
    let reading = now_millis();
    let s = millis_of_reading(reading) / 1000;
    assert(s == seconds_of(reading));
    s
}

/// A reading of the wall clock as milliseconds since the start of 1970:
/// the reading itself, and 0 for a reading before that start.
pub open spec fn millis_of(reading: i64) -> u64 {
    if reading < 0 {
        0
    } else {
        reading as u64
    }
}

/// A reading of the wall clock, in milliseconds, as whole seconds since
/// the start of 1970.
pub open spec fn seconds_of(reading: i64) -> u64 {
    (millis_of(reading) / 1000) as u64
}

/// A span of milliseconds as far as 64 bits hold it.
pub open spec fn capped(millis: u128) -> u64 {
    if millis > u64::MAX {
        u64::MAX
    } else {
        millis as u64
    }
}

/// The reading `reading` of the wall clock as milliseconds since the
/// start of 1970.
pub fn millis_of_reading(reading: i64) -> (t: u64)
    ensures
        t == millis_of(reading),
{
    if reading < 0 {
        0
    } else {
        reading as u64
    }
}

/// The span `millis`, or `u64::MAX` where it is longer than that.
pub fn capped_millis(millis: u128) -> (t: u64)
    ensures
        t == capped(millis),
{
    if millis > u64::MAX as u128 {
        u64::MAX
    } else {
        millis as u64
    }
}

} // verus!

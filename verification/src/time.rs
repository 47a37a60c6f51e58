//! The clock: all times are ticks of the embassy time driver, which runs
//! at one tick per microsecond.

use vstd::prelude::*;

verus! {

/// Ticks in one millisecond.
pub const TICKS_PER_MILLI: u64 = 1000;

/// The ticks from `start` to `now`, or zero where `now` lies before `start`.
pub open spec fn ticks_since(start: u64, now: u64) -> u64 {
    if now >= start {
        (now - start) as u64
    } else {
        0
    }
}

/// The ticks from `start` to `now`, or zero where `now` lies before `start`.
pub fn elapsed_between(start: u64, now: u64) -> (ticks: u64)
    ensures
        ticks == ticks_since(start, now),
{
    if now >= start {
        now - start
    } else {
        0
    }
}

/// Reads the clock with `embassy_time::Instant::now` and hands back its
/// tick count (`Instant::as_ticks`). Nothing is claimed of the value.
#[verifier::external_body]
pub(crate) fn now() -> u64 {
    embassy_time::Instant::now().as_ticks()
}

/// Converts milliseconds to ticks with `embassy_time::Duration::from_millis`
/// and `Duration::as_ticks`. At the tick rate of 1 MHz that embassy-time is
/// built with here, the conversion multiplies by 1000; inputs whose product
/// would leave `u64` are left out, as the outside function overflows on them.
#[verifier::external_body]
pub(crate) fn millis(ms: u64) -> (ticks: u64)
    requires
        ms * TICKS_PER_MILLI <= u64::MAX,
    ensures
        ticks == ms * TICKS_PER_MILLI,
{
    embassy_time::Duration::from_millis(ms).as_ticks()
}

} // verus!

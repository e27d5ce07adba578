//! Tick-based time keeping.
//!
//! All timing in the core is expressed in ticks of a monotonic hardware
//! counter that wraps at the width of `u32`. The surrounding system owns the
//! counter and the clock configuration; the core only converts durations and
//! compares timestamps.

use vstd::prelude::*;

verus! {

/// A value of the monotonic tick counter. The counter wraps around at
/// `u32::MAX`, so two timestamps may only be compared through wraparound-safe
/// subtraction (see `wrapping_elapsed` in the logic module).
#[derive(Clone, Copy, Debug, PartialEq, Eq, Structural)]
pub struct TimeStamp(pub u32);

/// Converts a duration in microseconds to ticks, given the system clock
/// frequency in hertz. One microsecond lasts `sysclk_hz / 1_000_000` ticks.
pub fn time_us_to_ticks(sysclk_hz: u32, us: u32) -> (r: u32)
    requires
        us * (sysclk_hz as int / 1000000) <= u32::MAX,
    ensures
        r == us * (sysclk_hz as int / 1000000),
{
    us * (sysclk_hz / 1000000)
}

/// Converts a duration in milliseconds to ticks, given the system clock
/// frequency in hertz.
pub fn time_ms_to_ticks(sysclk_hz: u32, ms: u32) -> (r: u32)
    requires
        ms * 1000 <= u32::MAX,
        ms * 1000 * (sysclk_hz as int / 1000000) <= u32::MAX,
    ensures
        r == ms * 1000 * (sysclk_hz as int / 1000000),
{
    time_us_to_ticks(sysclk_hz, ms * 1000)
}

} // verus!

//! Points in time and the distances between them, counted in ticks of the system clock.
//!
//! The arithmetic is that of `embassy_time`, whose clock ticks once every microsecond here.
use vstd::prelude::*;

verus! {

/// Ticks of the system clock in a millisecond.
pub const TICKS_PER_MILLI: u64 = 1_000;

/// An instant, in ticks of the system clock since startup.
#[derive(Debug, Clone, Copy, PartialEq, Eq, Structural)]
pub struct Instant {
    pub ticks: u64,
}

/// The difference between two instants, in ticks of the system clock.
#[derive(Debug, Clone, Copy, PartialEq, Eq, Structural)]
pub struct Duration {
    pub ticks: u64,
}

/// Calls `embassy_time::Duration::from_millis`.
///
/// Trusted: the duration spans a thousand ticks for every millisecond, as the clock runs at
/// 1 MHz. The multiplication must not overflow, or the call panics.
#[verifier::external_body]
fn millis_to_ticks(millis: u64) -> (ticks: u64)
    requires
        millis * TICKS_PER_MILLI <= u64::MAX,
    ensures
        ticks == millis * TICKS_PER_MILLI,
{
    embassy_time::Duration::from_millis(millis).as_ticks()
}

/// Calls `embassy_time::Duration::as_micros`.
///
/// Trusted: at 1 MHz the microseconds of a duration are its ticks.
#[verifier::external_body]
fn ticks_to_micros(ticks: u64) -> (micros: u64)
    ensures
        micros == ticks,
{
    embassy_time::Duration::from_ticks(ticks).as_micros()
}

/// Subtracts one `embassy_time::Instant` from another.
///
/// Trusted: the result is the difference of the two tick counts. The call panics where the second
/// instant is the later one.
#[verifier::external_body]
fn ticks_between(later: u64, earlier: u64) -> (ticks: u64)
    requires
        earlier <= later,
    ensures
        ticks == later - earlier,
{
    let later = embassy_time::Instant::from_ticks(later);
    let earlier = embassy_time::Instant::from_ticks(earlier);
    (later - earlier).as_ticks()
}

impl Duration {
    pub fn from_millis(millis: u64) -> (duration: Duration)
        requires
            millis * TICKS_PER_MILLI <= u64::MAX,
        ensures
            duration.ticks == millis * TICKS_PER_MILLI,
    {
        Duration { ticks: millis_to_ticks(millis) }
    }

    pub fn as_micros(&self) -> (micros: u64)
        ensures
            micros == self.ticks,
    {
        ticks_to_micros(self.ticks)
    }
}

impl Instant {
    /// The time that passed since `earlier`.
    pub fn duration_since(&self, earlier: Instant) -> (duration: Duration)
        requires
            earlier.ticks <= self.ticks,
        ensures
            duration.ticks == self.ticks - earlier.ticks,
    {
        Duration { ticks: ticks_between(self.ticks, earlier.ticks) }
    }
}

} // verus!

//! Points and spans of time, counted in ticks of the embassy clock.

use vstd::prelude::*;

verus! {

/// Ticks per second of the embassy clock, at the tick rate that the `std` feature of
/// `embassy_time` selects.
pub const TICK_HZ: u64 = 1_000_000;

/// A span of time.
#[derive(Debug, Clone, Copy, PartialEq, Eq, Structural)]
pub struct Duration {
    /// Length of the span in clock ticks.
    pub ticks: u64,
}

/// A point in time.
#[derive(Debug, Clone, Copy, PartialEq, Eq, Structural)]
pub struct Instant {
    /// Clock ticks since startup.
    pub ticks: u64,
}

impl Duration {
    /// A span of whole seconds.
    pub fn from_secs(secs: u64) -> (d: Duration)
        requires
            secs * TICK_HZ <= u64::MAX,
        ensures
            d.ticks == secs * TICK_HZ,
    {
        Duration { ticks: ticks_from_secs(secs) }
    }

    /// A span of whole milliseconds.
    pub fn from_millis(millis: u64) -> (d: Duration)
        requires
            millis * 1_000 <= u64::MAX,
        ensures
            d.ticks == millis * 1_000,
    {
        Duration { ticks: ticks_from_millis(millis) }
    }

    /// The span in milliseconds, rounded down.
    pub fn as_millis(self) -> (millis: u64)
        ensures
            millis == self.ticks / 1_000,
    {
        millis_from_ticks(self.ticks)
    }

    /// Whether this span is longer than `other`.
    pub fn exceeds(self, other: Duration) -> (longer: bool)
        ensures
            longer == (self.ticks > other.ticks),
    {
        self.ticks > other.ticks
    }
}

impl Instant {
    /// Whether the clock can represent the point that lies `duration` after this one.
    pub open spec fn can_add(self, duration: Duration) -> bool {
        self.ticks + duration.ticks <= u64::MAX
    }

    /// The point that lies `duration` after this one.
    pub open spec fn plus(self, duration: Duration) -> Instant {
        Instant { ticks: (self.ticks + duration.ticks) as u64 }
    }

    /// Whether more than `duration` lies between this point and the later point `now`.
    pub open spec fn longer_ago_than(self, duration: Duration, now: Instant) -> bool {
        now.ticks - self.ticks > duration.ticks
    }

    /// The point that lies `duration` after this one.
    pub fn after(self, duration: Duration) -> (later: Instant)
        requires
            self.can_add(duration),
        ensures
            later == self.plus(duration),
    {
        Instant { ticks: ticks_add(self.ticks, duration.ticks) }
    }

    /// The span from `earlier` to this point.
    pub fn duration_since(self, earlier: Instant) -> (d: Duration)
        requires
            earlier.ticks <= self.ticks,
        ensures
            d.ticks == self.ticks - earlier.ticks,
    {
        Duration { ticks: ticks_between(earlier.ticks, self.ticks) }
    }

    /// Whether this point is earlier than `other`.
    pub fn is_before(self, other: Instant) -> (before: bool)
        ensures
            before == (self.ticks < other.ticks),
    {
        self.ticks < other.ticks
    }
}

/// Calls `embassy_time::Duration::from_secs`: a second is `TICK_HZ` ticks.
#[verifier::external_body]
fn ticks_from_secs(secs: u64) -> (ticks: u64)
    requires
        secs * TICK_HZ <= u64::MAX,
    ensures
        ticks == secs * TICK_HZ,
{
    embassy_time::Duration::from_secs(secs).as_ticks()
}

/// Calls `embassy_time::Duration::from_millis`: at this tick rate a millisecond is a
/// whole number of ticks, so that nothing is rounded.
#[verifier::external_body]
fn ticks_from_millis(millis: u64) -> (ticks: u64)
    requires
        millis * 1_000 <= u64::MAX,
    ensures
        ticks == millis * 1_000,
{
    embassy_time::Duration::from_millis(millis).as_ticks()
}

/// Calls `embassy_time::Duration::as_millis`, which rounds down.
#[verifier::external_body]
fn millis_from_ticks(ticks: u64) -> (millis: u64)
    ensures
        millis == ticks / 1_000,
{
    embassy_time::Duration::from_ticks(ticks).as_millis()
}

/// Calls the `+` of `embassy_time::Instant` and `embassy_time::Duration`, which adds
/// their ticks, and panics where the sum does not fit.
#[verifier::external_body]
fn ticks_add(instant: u64, duration: u64) -> (ticks: u64)
    requires
        instant + duration <= u64::MAX,
    ensures
        ticks == instant + duration,
{
    let sum = embassy_time::Instant::from_ticks(instant) + embassy_time::Duration::from_ticks(duration);
    sum.as_ticks()
}

/// Calls `embassy_time::Instant::duration_since`, which takes the difference of the
/// ticks, and panics where `earlier` is the later point.
#[verifier::external_body]
fn ticks_between(earlier: u64, later: u64) -> (ticks: u64)
    requires
        earlier <= later,
    ensures
        ticks == later - earlier,
{
    let later = embassy_time::Instant::from_ticks(later);
    later.duration_since(embassy_time::Instant::from_ticks(earlier)).as_ticks()
}

/// Where the clock can represent the point that lies a span after another, it is that many
/// ticks later, and a span has passed exactly once the clock is past that point.
pub proof fn law_spans_count_ticks(start: Instant, duration: Duration, now: Instant)
    ensures
        start.can_add(duration) <==> start.ticks + duration.ticks <= u64::MAX,
        start.can_add(duration) ==> start.plus(duration).ticks == start.ticks + duration.ticks,
        start.longer_ago_than(duration, now) <==> now.ticks > start.ticks + duration.ticks,
{
}

} // verus!

//! Points in time and spans between them, counted in nanoseconds.
//!
//! The coordinator never reads a clock. Whoever observes an event stamps it, and
//! every decision is made from those stamps.

use core::ops::Add;
use vstd::prelude::*;
use vstd::std_specs::ops::AddSpecImpl;

verus! {

/// Nanoseconds in one millisecond.
pub const NANOS_PER_MILLI: u128 = 1_000_000;

/// A span of time.
#[derive(Debug, Clone, Copy, PartialEq, Eq, Structural)]
pub struct Duration {
    pub nanos: u128,
}

/// A point in time, counted from the start of the clock that stamped it.
#[derive(Debug, Clone, Copy, PartialEq, Eq, Structural)]
pub struct Instant {
    pub nanos: u128,
}

impl Duration {
    /// The span of `millis` milliseconds.
    pub fn from_millis(millis: u64) -> (d: Duration)
        ensures
            d.nanos == millis * NANOS_PER_MILLI,
    {
        Duration { nanos: millis as u128 * NANOS_PER_MILLI }
    }
}

impl Instant {
    /// The span from `earlier` to `self`, or zero where `earlier` is the later of the two.
    pub fn saturating_duration_since(&self, earlier: Instant) -> (d: Duration)
        ensures
            d == duration_between(earlier, *self),
    {
        if self.nanos >= earlier.nanos {
            Duration { nanos: self.nanos - earlier.nanos }
        } else {
            Duration { nanos: 0 }
        }
    }
}

/// The span from `earlier` to `later`, or zero where they are the other way round.
pub open spec fn duration_between(earlier: Instant, later: Instant) -> Duration {
    if later.nanos >= earlier.nanos {
        Duration { nanos: (later.nanos - earlier.nanos) as u128 }
    } else {
        Duration { nanos: 0 }
    }
}

/// Whether the clock can represent the point `d` after `t`.
pub open spec fn representable(t: Instant, d: Duration) -> bool {
    t.nanos + d.nanos <= u128::MAX
}

/// The point `d` after `t`, where it is representable.
pub open spec fn instant_after(t: Instant, d: Duration) -> Instant {
    Instant { nanos: (t.nanos + d.nanos) as u128 }
}

impl Add<Duration> for Instant {
    type Output = Instant;

    fn add(self, rhs: Duration) -> (sum: Instant) {
        Instant { nanos: self.nanos + rhs.nanos }
    }
}

impl AddSpecImpl<Duration> for Instant {
    open spec fn obeys_add_spec() -> bool {
        true
    }

    open spec fn add_req(self, rhs: Duration) -> bool {
        representable(self, rhs)
    }

    open spec fn add_spec(self, rhs: Duration) -> Instant {
        instant_after(self, rhs)
    }
}

} // verus!

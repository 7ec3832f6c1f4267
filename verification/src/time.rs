//! Points in time and spans of time, both counted in nanoseconds.

use vstd::prelude::*;

verus! {

/// A span of time.
#[derive(Clone, Copy, Debug, PartialEq, Eq, Structural)]
pub struct Duration {
    /// Length of the span in nanoseconds
    pub nanos: u128,
}

/// A reading of a monotonic clock, counted from an arbitrary origin.
#[derive(Clone, Copy, Debug, PartialEq, Eq, Structural)]
pub struct Instant {
    /// Nanoseconds since the origin of the clock
    pub nanos: u128,
}

impl Duration {
    /// A span of whole milliseconds.
    pub fn from_millis(millis: u64) -> (d: Duration)
        ensures
            d.nanos == millis * 1_000_000,
    {
        Duration { nanos: millis as u128 * 1_000_000 }
    }

    /// Whether the span is empty.
    pub fn is_zero(&self) -> (zero: bool)
        ensures
            zero == (self.nanos == 0),
    {
        self.nanos == 0
    }

    /// The span divided into `parts` equal ones, rounded down.
    pub fn divided_by(&self, parts: u32) -> (d: Duration)
        requires
            parts > 0,
        ensures
            d.nanos == self.nanos as int / parts as int,
    {
        Duration { nanos: self.nanos / parts as u128 }
    }
}

impl Instant {
    /// How long `earlier` lies back, nothing if it lies ahead.
    pub fn saturating_duration_since(&self, earlier: Instant) -> (d: Duration)
        ensures
            d.nanos == (if self.nanos >= earlier.nanos {
                self.nanos - earlier.nanos
            } else {
                0
            }),
    {
        Duration { nanos: self.nanos.saturating_sub(earlier.nanos) }
    }
}

} // verus!

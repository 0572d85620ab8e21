//! Points in time and spans of time, as whole nanoseconds.
use vstd::prelude::*;

verus! {

/// A reading of the monotonic clock: nanoseconds since an epoch that is the
/// same for every reading of one process.
#[derive(Debug, Clone, Copy, PartialEq, Eq, Structural)]
pub struct Instant {
    pub nanos: u128,
}

/// A span of time in nanoseconds.
#[derive(Debug, Clone, Copy, PartialEq, Eq, Structural)]
pub struct Duration {
    pub nanos: u128,
}

/// Nanoseconds from `earlier` to `later`; zero where they are the other way
/// round.
pub open spec fn elapsed_nanos(later: Instant, earlier: Instant) -> int {
    if later.nanos >= earlier.nanos {
        later.nanos - earlier.nanos
    } else {
        0
    }
}

impl Duration {
    /// A span of whole seconds.
    pub fn from_secs(secs: u64) -> (r: Duration)
        ensures
            r.nanos == secs * 1_000_000_000,
    {
        Duration { nanos: secs as u128 * 1_000_000_000 }
    }

    /// A span of whole milliseconds.
    pub fn from_millis(millis: u64) -> (r: Duration)
        ensures
            r.nanos == millis * 1_000_000,
    {
        Duration { nanos: millis as u128 * 1_000_000 }
    }

    /// The whole microseconds in this span.
    pub fn as_micros(&self) -> (r: u128)
        ensures
            r == self.nanos as int / 1_000,
    {
        self.nanos / 1_000
    }
}

impl Instant {
    /// The time since `earlier`, zero if `earlier` is the later of the two.
    pub fn saturating_duration_since(&self, earlier: Instant) -> (r: Duration)
        ensures
            r.nanos == elapsed_nanos(*self, earlier),
    {
        if self.nanos >= earlier.nanos {
            Duration { nanos: self.nanos - earlier.nanos }
        } else {
            Duration { nanos: 0 }
        }
    }

    /// The instant `span` after this one, unless no instant can hold it.
    pub fn checked_add(&self, span: Duration) -> (r: Option<Instant>)
        ensures
            r == (if self.nanos + span.nanos <= u128::MAX {
                Some(Instant { nanos: (self.nanos + span.nanos) as u128 })
            } else {
                None::<Instant>
            }),
    {
        if span.nanos <= u128::MAX - self.nanos {
            Some(Instant { nanos: self.nanos + span.nanos })
        } else {
            None
        }
    }
}

} // verus!

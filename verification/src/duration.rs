//! Spans of time, to the nanosecond.

use vstd::prelude::*;

verus! {

/// How many nanoseconds make a second.
pub const NANOS_PER_SEC: u32 = 1_000_000_000;

/// A span of time.
#[derive(Clone, Copy, Debug, Eq, PartialEq)]
pub struct Duration {
    secs: u64,
    nanos: u32,
}

/// The longest span of time, in nanoseconds.
pub open spec fn longest() -> nat {
    (u64::MAX * NANOS_PER_SEC + NANOS_PER_SEC - 1) as nat
}

impl Duration {
    #[verifier::type_invariant]
    spec fn normalized(self) -> bool {
        self.nanos < NANOS_PER_SEC
    }

    /// The whole span, in nanoseconds.
    pub closed spec fn total(self) -> nat {
        (self.secs * NANOS_PER_SEC + self.nanos) as nat
    }

    /// Returns the span of `secs` seconds and `nanos` nanoseconds.
    pub fn new(secs: u64, nanos: u32) -> (duration: Self)
        requires
            secs * NANOS_PER_SEC + nanos <= longest(),
        ensures
            duration.total() == secs * NANOS_PER_SEC + nanos,
    {
        let carried: u32 = nanos / NANOS_PER_SEC;
        Duration { secs: secs + (carried as u64), nanos: nanos % NANOS_PER_SEC }
    }

    /// Returns the empty span.
    pub fn zero() -> (duration: Self)
        ensures
            duration.total() == 0,
    {
        Duration { secs: 0, nanos: 0 }
    }

    /// Returns the whole seconds of the span.
    pub fn as_secs(&self) -> (secs: u64)
        ensures
            secs == self.total() / (NANOS_PER_SEC as nat),
    {
        proof {
            use_type_invariant(self);
        }
        self.secs
    }

    /// Returns what is left of the span besides its whole seconds, in
    /// nanoseconds.
    pub fn subsec_nanos(&self) -> (nanos: u32)
        ensures
            nanos == self.total() % (NANOS_PER_SEC as nat),
            nanos < NANOS_PER_SEC,
    {
        proof {
            use_type_invariant(self);
        }
        self.nanos
    }

    /// Returns the two spans together, if that can be represented.
    pub fn checked_add(self, other: Duration) -> (sum: Option<Duration>)
        ensures
            match sum {
                Some(sum) => sum.total() == self.total() + other.total() <= longest(),
                None => self.total() + other.total() > longest(),
            },
    {
        proof {
            use_type_invariant(&self);
            use_type_invariant(&other);
        }
        let mut nanos: u32 = self.nanos + other.nanos;
        match self.secs.checked_add(other.secs) {
            None => None,
            Some(secs) => {
                if nanos < NANOS_PER_SEC {
                    Some(Duration { secs, nanos })
                } else {
                    nanos = nanos - NANOS_PER_SEC;
                    match secs.checked_add(1) {
                        None => None,
                        Some(secs) => Some(Duration { secs, nanos }),
                    }
                }
            },
        }
    }
}

/// A second is a thousand million nanoseconds, and the longest span is one
/// nanosecond short of the seconds that a `u64` cannot hold.
pub proof fn law_seconds_are_nanoseconds()
    ensures
        NANOS_PER_SEC == 1000 * 1000 * 1000,
        longest() + 1 == 0x1_0000_0000_0000_0000 * 1_000_000_000,
{
}

} // verus!

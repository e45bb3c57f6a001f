//! Spans of time and points on a monotonic clock.
//!
//! Both are counts of nanoseconds: a [`Duration`] is a length, an [`Instant`] is how far a
//! clock has come since its own origin.

use vstd::prelude::*;

verus! {

/// Nanoseconds in a second.
pub const NANOS_PER_SEC: u128 = 1_000_000_000;

/// The longest span: `u64::MAX` seconds and 999,999,999 nanoseconds.
pub const MAX_NANOS: u128 = 18_446_744_073_709_551_615_999_999_999;

/// A span of time, to the nanosecond.
#[derive(Debug, Clone, Copy, PartialEq, Eq, PartialOrd, Ord, Hash, Structural)]
pub struct Duration {
    nanos: u128,
}

impl View for Duration {
    type V = nat;

    /// The length in nanoseconds.
    closed spec fn view(&self) -> nat {
        self.nanos as nat
    }
}

/// `a - b`, or zero where `b` is the larger.
pub open spec fn minus_saturating(a: nat, b: nat) -> nat {
    if a >= b {
        (a - b) as nat
    } else {
        0
    }
}

/// Two spans are the same span exactly if they are of the same length.
pub proof fn law_span_is_its_length(a: Duration, b: Duration)
    ensures
        a == b <==> a@ == b@,
{
}

impl Duration {
    #[verifier::type_invariant]
    spec fn fits(self) -> bool {
        self.nanos <= MAX_NANOS
    }

    /// No time at all.
    pub fn zero() -> (d: Duration)
        ensures
            d@ == 0,
    {
        Duration { nanos: 0 }
    }

    /// A whole number of seconds.
    pub fn from_secs(secs: u64) -> (d: Duration)
        ensures
            d@ == secs * NANOS_PER_SEC,
    {
        Duration { nanos: secs as u128 * NANOS_PER_SEC }
    }

    /// `secs` seconds and `nanos` nanoseconds, the second below one second.
    pub fn new(secs: u64, nanos: u32) -> (d: Duration)
        requires
            nanos < NANOS_PER_SEC,
        ensures
            d@ == secs * NANOS_PER_SEC + nanos,
    {
        Duration { nanos: secs as u128 * NANOS_PER_SEC + nanos as u128 }
    }

    /// The whole seconds in the span.
    pub fn as_secs(&self) -> (secs: u64)
        ensures
            secs == self@ / NANOS_PER_SEC as nat,
    {
        proof {
            use_type_invariant(self);
        }
        (self.nanos / NANOS_PER_SEC) as u64
    }

    /// The nanoseconds past the last whole second.
    pub fn subsec_nanos(&self) -> (nanos: u32)
        ensures
            nanos == self@ % NANOS_PER_SEC as nat,
    {
        (self.nanos % NANOS_PER_SEC) as u32
    }

    pub fn is_zero(&self) -> (zero: bool)
        ensures
            zero == (self@ == 0),
    {
        self.nanos == 0
    }

    /// Whether the span is at least as long as `other`.
    pub fn at_least(&self, other: Duration) -> (r: bool)
        ensures
            r == (self@ >= other@),
    {
        self.nanos >= other.nanos
    }

    /// What is left after `other` has been taken off, never below zero.
    pub fn saturating_sub(&self, other: Duration) -> (left: Duration)
        ensures
            left@ == minus_saturating(self@, other@),
    {
        proof {
            use_type_invariant(self);
        }
        if self.nanos >= other.nanos {
            Duration { nanos: self.nanos - other.nanos }
        } else {
            Duration { nanos: 0 }
        }
    }

    /// The two spans end to end.
    pub fn plus(&self, other: Duration) -> (sum: Duration)
        requires
            self@ + other@ <= MAX_NANOS,
        ensures
            sum@ == self@ + other@,
    {
        Duration { nanos: self.nanos + other.nanos }
    }
}

/// A point in time, as a clock that only moves forward tells it.
#[derive(Debug, Clone, Copy, PartialEq, Eq, PartialOrd, Ord, Hash, Structural)]
pub struct Instant {
    since_origin: Duration,
}

impl View for Instant {
    type V = nat;

    /// Nanoseconds since the clock's origin.
    closed spec fn view(&self) -> nat {
        self.since_origin@
    }
}

/// Two readings are the same reading exactly if they are equally far from the origin.
pub proof fn law_reading_is_its_distance(a: Instant, b: Instant)
    ensures
        a == b <==> a@ == b@,
{
}

impl Instant {
    /// The reading of a clock that has come `since_origin` from its origin.
    pub fn at(since_origin: Duration) -> (i: Instant)
        ensures
            i@ == since_origin@,
    {
        Instant { since_origin }
    }

    /// How far this reading is past `earlier`; zero if it is not past it.
    pub fn saturating_duration_since(&self, earlier: Instant) -> (d: Duration)
        ensures
            d@ == minus_saturating(self@, earlier@),
    {
        self.since_origin.saturating_sub(earlier.since_origin)
    }
}

} // verus!

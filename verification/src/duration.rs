//! Spans of time, to the nanosecond.

use vstd::prelude::*;

verus! {

/// Nanoseconds in one second.
pub const NANOS_PER_SEC: u32 = 1_000_000_000;

/// Nanoseconds in one millisecond.
pub const NANOS_PER_MILLI: u32 = 1_000_000;

/// A span of time: whole seconds and the nanoseconds beyond them. Its view is
/// the span in nanoseconds. A point in time is written as the span since a
/// fixed start.
#[derive(Clone, Copy, Debug, PartialEq, Eq, Structural)]
pub struct Duration {
    secs: u64,
    nanos: u32,
}

impl View for Duration {
    type V = nat;

    closed spec fn view(&self) -> nat {
        (self.secs * NANOS_PER_SEC + self.nanos) as nat
    }
}

/// `a - b`, or 0 where `b` is the larger.
pub open spec fn saturating_difference(a: nat, b: nat) -> nat {
    if a >= b {
        (a - b) as nat
    } else {
        0
    }
}

/// The whole milliseconds in a span of `nanos` nanoseconds, in the low 64 bits.
pub open spec fn millis_low_bits(nanos: nat) -> nat {
    (nanos / NANOS_PER_MILLI as nat) % 0x1_0000_0000_0000_0000
}

impl Duration {
    #[verifier::type_invariant]
    spec fn within_a_second(self) -> bool {
        self.nanos < NANOS_PER_SEC
    }

    /// The span of `secs` seconds and `nanos` nanoseconds.
    pub fn from_parts(secs: u64, nanos: u32) -> (span: Duration)
        requires
            nanos < NANOS_PER_SEC,
        ensures
            span@ == secs * NANOS_PER_SEC + nanos,
    {
        Duration { secs, nanos }
    }

    /// The span of `secs` seconds.
    pub fn from_secs(secs: u64) -> (span: Duration)
        ensures
            span@ == secs * NANOS_PER_SEC,
    {
        Duration { secs, nanos: 0 }
    }

    /// The span of `millis` milliseconds.
    pub fn from_millis(millis: u64) -> (span: Duration)
        ensures
            span@ == millis * NANOS_PER_MILLI,
    {
        let nanos: u32 = (millis % 1000) as u32 * NANOS_PER_MILLI;
        Duration { secs: millis / 1000, nanos }
    }

    /// The whole seconds of the span.
    pub fn as_secs(&self) -> (secs: u64)
        ensures
            secs == self@ / NANOS_PER_SEC as nat,
    {
        proof {
            use_type_invariant(self);
        }
        self.secs
    }

    /// The nanoseconds beyond the whole seconds of the span.
    pub fn subsec_nanos(&self) -> (nanos: u32)
        ensures
            nanos == self@ % NANOS_PER_SEC as nat,
    {
        proof {
            use_type_invariant(self);
        }
        self.nanos
    }

    /// The whole milliseconds of the span, cut to the low 64 bits.
    pub fn as_millis_u64(&self) -> (millis: u64)
        ensures
            millis == millis_low_bits(self@),
    {
        proof {
            use_type_invariant(self);
        }
        let millis: u128 = self.secs as u128 * 1000 + (self.nanos / NANOS_PER_MILLI) as u128;
        (millis % 0x1_0000_0000_0000_0000) as u64
    }

    /// Whether the span is empty.
    pub fn is_zero(&self) -> (zero: bool)
        ensures
            zero == (self@ == 0),
    {
        proof {
            use_type_invariant(self);
        }
        self.secs == 0 && self.nanos == 0
    }

    /// Whether the span is no shorter than `other`.
    pub fn is_at_least(&self, other: Duration) -> (reached: bool)
        ensures
            reached == (self@ >= other@),
    {
        proof {
            use_type_invariant(self);
            use_type_invariant(&other);
        }
        self.secs > other.secs || (self.secs == other.secs && self.nanos >= other.nanos)
    }

    /// The span less `other`, or the empty span where `other` is the longer.
    pub fn saturating_sub(&self, other: Duration) -> (rest: Duration)
        ensures
            rest@ == saturating_difference(self@, other@),
    {
        proof {
            use_type_invariant(self);
            use_type_invariant(&other);
        }
        if self.secs < other.secs || (self.secs == other.secs && self.nanos < other.nanos) {
            Duration { secs: 0, nanos: 0 }
        } else if self.nanos >= other.nanos {
            Duration { secs: self.secs - other.secs, nanos: self.nanos - other.nanos }
        } else {
            Duration {
                secs: self.secs - other.secs - 1,
                nanos: self.nanos + NANOS_PER_SEC - other.nanos,
            }
        }
    }
}

} // verus!

use vstd::prelude::*;

verus! {

/// Nanoseconds in one second.
pub const NANOS_PER_SEC: u64 = 1_000_000_000;

/// The longest span a `Duration` holds, in nanoseconds: `u64::MAX` seconds and
/// 999 999 999 nanoseconds.
pub open spec fn max_nanos() -> nat {
    u64::MAX as nat * NANOS_PER_SEC as nat + 999_999_999nat
}

/// A span of time with nanosecond precision, at most `max_nanos()` long.
/// Its view is the span in nanoseconds.
#[derive(Debug, Clone, Copy, PartialEq, Eq, Structural)]
pub struct Duration {
    nanos: u128,
}

impl View for Duration {
    type V = nat;

    closed spec fn view(&self) -> nat {
        self.nanos as nat
    }
}

impl Duration {
    #[verifier::type_invariant]
    spec fn within_range(self) -> bool {
        self.nanos <= max_nanos()
    }

    /// The empty span.
    pub fn zero() -> (d: Duration)
        ensures
            d@ == 0,
    {
        Duration { nanos: 0 }
    }

    /// A span of `secs` whole seconds and `nanos` nanoseconds; nanoseconds beyond a
    /// second carry over into the seconds.
    pub fn new(secs: u64, nanos: u32) -> (d: Duration)
        requires
            secs as nat * NANOS_PER_SEC as nat + nanos as nat <= max_nanos(),
        ensures
            d@ == secs as nat * NANOS_PER_SEC as nat + nanos as nat,
    {
        Duration { nanos: secs as u128 * 1_000_000_000u128 + nanos as u128 }
    }

    /// A span of whole seconds.
    pub fn from_secs(secs: u64) -> (d: Duration)
        ensures
            d@ == secs as nat * NANOS_PER_SEC as nat,
    {
        Duration { nanos: secs as u128 * 1_000_000_000u128 }
    }

    /// A span of whole milliseconds.
    pub fn from_millis(millis: u64) -> (d: Duration)
        ensures
            d@ == millis as nat * 1_000_000,
    {
        Duration { nanos: millis as u128 * 1_000_000u128 }
    }

    /// Whether the span is empty.
    pub fn is_zero(&self) -> (z: bool)
        ensures
            z == (self@ == 0),
    {
        self.nanos == 0
    }

    /// The whole seconds of the span.
    pub fn as_secs(&self) -> (s: u64)
        ensures
            s == self@ / NANOS_PER_SEC as nat,
    {
        proof {
            use_type_invariant(self);
        }
        assert(self.nanos / 1_000_000_000u128 <= u64::MAX) by (nonlinear_arith)
            requires
                self.nanos <= u64::MAX as nat * 1_000_000_000 + 999_999_999,
        ;
        (self.nanos / 1_000_000_000u128) as u64
    }

    /// The nanoseconds of the last, partial second.
    pub fn subsec_nanos(&self) -> (n: u32)
        ensures
            n == self@ % NANOS_PER_SEC as nat,
    {
        (self.nanos % 1_000_000_000u128) as u32
    }

    /// Whether this span is at least as long as `other`.
    pub fn at_least(&self, other: &Duration) -> (b: bool)
        ensures
            b == (self@ >= other@),
    {
        self.nanos >= other.nanos
    }

    /// This span less `other`, or the empty span where `other` is longer.
    pub fn saturating_sub(self, other: Duration) -> (d: Duration)
        ensures
            d@ == if self@ >= other@ {
                (self@ - other@) as nat
            } else {
                0
            },
    {
        proof {
            use_type_invariant(self);
        }
        if self.nanos >= other.nanos {
            Duration { nanos: self.nanos - other.nanos }
        } else {
            Duration { nanos: 0 }
        }
    }

    /// The sum of both spans, or `None` where it would exceed `max_nanos()`.
    pub fn checked_add(self, other: Duration) -> (d: Option<Duration>)
        ensures
            d is Some <==> self@ + other@ <= max_nanos(),
            d matches Some(s) ==> s@ == self@ + other@,
    {
        proof {
            use_type_invariant(self);
            use_type_invariant(other);
        }
        let limit: u128 = 18446744073709551615u128 * 1_000_000_000u128 + 999_999_999u128;
        if self.nanos <= limit - other.nanos {
            Some(Duration { nanos: self.nanos + other.nanos })
        } else {
            None
        }
    }
}

} // verus!

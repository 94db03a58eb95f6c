//! Spans of time with nanosecond resolution.
use vstd::prelude::*;

verus! {

/// Nanoseconds in one second.
pub const NANOS_PER_SEC: u128 = 1_000_000_000;

/// Nanoseconds in one millisecond.
pub const NANOS_PER_MILLI: u128 = 1_000_000;

/// The longest span in nanoseconds: `u64::MAX` seconds and 999 999 999 nanoseconds.
pub const MAX_NANOS: u128 = 18_446_744_073_709_551_615_999_999_999;

/// A span of time, at most `u64::MAX` seconds and 999 999 999 nanoseconds long.
///
/// The view is the length in nanoseconds.
#[derive(Debug, Clone, Copy, PartialEq, Eq, Structural, PartialOrd, Ord)]
pub struct Duration {
    nanos: u128,
}

impl View for Duration {
    type V = nat;

    closed spec fn view(&self) -> nat {
        self.nanos as nat
    }
}

/// The shorter of two lengths.
pub open spec fn shorter(a: nat, b: nat) -> nat {
    if a <= b {
        a
    } else {
        b
    }
}

/// The longer of two lengths.
pub open spec fn longer(a: nat, b: nat) -> nat {
    if a >= b {
        a
    } else {
        b
    }
}

impl Duration {
    #[verifier::type_invariant]
    spec fn bounded(self) -> bool {
        self.nanos <= MAX_NANOS
    }

    /// A span of `secs` seconds and `nanos` nanoseconds.
    pub fn new(secs: u64, nanos: u32) -> (duration: Duration)
        requires
            nanos < NANOS_PER_SEC,
        ensures
            duration@ == secs * NANOS_PER_SEC + nanos,
    {
        Duration { nanos: secs as u128 * NANOS_PER_SEC + nanos as u128 }
    }

    /// A span of `secs` seconds.
    pub fn from_secs(secs: u64) -> (duration: Duration)
        ensures
            duration@ == secs * NANOS_PER_SEC,
    {
        Duration { nanos: secs as u128 * NANOS_PER_SEC }
    }

    /// A span of `millis` milliseconds.
    pub fn from_millis(millis: u64) -> (duration: Duration)
        ensures
            duration@ == millis * NANOS_PER_MILLI,
    {
        Duration { nanos: millis as u128 * NANOS_PER_MILLI }
    }

    /// A span of `nanos` nanoseconds.
    pub fn from_nanos(nanos: u64) -> (duration: Duration)
        ensures
            duration@ == nanos,
    {
        Duration { nanos: nanos as u128 }
    }

    /// The whole length in nanoseconds.
    pub fn as_nanos(&self) -> (nanos: u128)
        ensures
            nanos == self@,
            nanos <= MAX_NANOS,
    {
        proof {
            use_type_invariant(self);
        }
        self.nanos
    }

    /// The whole seconds in the span.
    pub fn as_secs(&self) -> (secs: u64)
        ensures
            secs == self@ / (NANOS_PER_SEC as nat),
    {
        proof {
            use_type_invariant(self);
        }
        (self.nanos / NANOS_PER_SEC) as u64
    }

    /// The nanoseconds beyond the whole seconds.
    pub fn subsec_nanos(&self) -> (nanos: u32)
        ensures
            nanos == self@ % (NANOS_PER_SEC as nat),
    {
        (self.nanos % NANOS_PER_SEC) as u32
    }

    /// Whether the span has no length.
    pub fn is_zero(&self) -> (zero: bool)
        ensures
            zero == (self@ == 0),
    {
        self.nanos == 0
    }

    /// The span `factor` times over, or the longest span if that is too long.
    pub fn saturating_mul(self, factor: u32) -> (product: Duration)
        ensures
            product@ == shorter((self@ * factor) as nat, MAX_NANOS as nat),
    {
        proof {
            use_type_invariant(&self);
        }
        assert(0 <= self.nanos * factor <= MAX_NANOS * u32::MAX) by (nonlinear_arith)
            requires
                self.nanos <= MAX_NANOS,
                factor <= u32::MAX,
        ;
        let product: u128 = self.nanos * (factor as u128);
        if product <= MAX_NANOS {
            Duration { nanos: product }
        } else {
            Duration { nanos: MAX_NANOS }
        }
    }

    /// The shorter of the two spans.
    pub fn at_most(self, bound: Duration) -> (duration: Duration)
        ensures
            duration@ == shorter(self@, bound@),
            duration@ <= bound@ <= MAX_NANOS,
    {
        proof {
            use_type_invariant(&bound);
        }
        if self.nanos <= bound.nanos {
            self
        } else {
            bound
        }
    }

    /// The longer of the two spans.
    pub fn at_least(self, bound: Duration) -> (duration: Duration)
        ensures
            duration@ == longer(self@, bound@),
    {
        if self.nanos >= bound.nanos {
            self
        } else {
            bound
        }
    }
}

/// The shorter and the longer of two lengths are the two lengths, in order.
pub proof fn law_shorter_and_longer(a: nat, b: nat)
    ensures
        shorter(a, b) <= longer(a, b),
        shorter(a, b) + longer(a, b) == a + b,
        shorter(a, b) == a || shorter(a, b) == b,
        longer(a, b) == a || longer(a, b) == b,
{
}

/// The whole seconds of a span and the nanoseconds beyond them make up the span, and a span made of
/// seconds and nanoseconds has that length.
pub proof fn law_seconds_and_nanoseconds_make_the_span(
    secs: u64,
    nanos: u32,
    span: Duration,
    whole: u64,
    beyond: u32,
)
    requires
        nanos < 1_000_000_000,
        call_ensures(Duration::new, (secs, nanos), span),
        call_ensures(Duration::as_secs, (&span,), whole),
        call_ensures(Duration::subsec_nanos, (&span,), beyond),
    ensures
        span@ == secs * 1_000_000_000 + nanos,
        whole == secs,
        beyond == nanos,
{
}

/// A span some times over is that many times as long, unless it is longer than the longest span.
pub proof fn law_span_many_times_over(span: Duration, factor: u32, product: Duration)
    requires
        call_ensures(Duration::saturating_mul, (span, factor), product),
    ensures
        product@ <= MAX_NANOS,
        span@ * factor <= MAX_NANOS ==> product@ == span@ * factor,
        span@ * factor > MAX_NANOS ==> product@ == MAX_NANOS,
{
}

} // verus!

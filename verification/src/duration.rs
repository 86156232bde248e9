//! Spans of time with nanosecond resolution.

use vstd::prelude::*;

verus! {

/// Nanoseconds in one second.
pub const NANOS_PER_SEC: u32 = 1_000_000_000;

/// Nanoseconds in one millisecond.
pub const NANOS_PER_MILLI: u32 = 1_000_000;

/// Milliseconds in one second.
pub const MILLIS_PER_SEC: u64 = 1_000;

/// A span of time: whole seconds and a sub-second remainder in nanoseconds.
///
/// The view of a span is its length in nanoseconds. Two spans of the same
/// length are the same value, see [`Duration::lemma_view_injective`].
#[derive(Clone, Copy, Debug, PartialEq, Eq, Structural)]
pub struct Duration {
    pub(crate) secs: u64,
    pub(crate) nanos: u32,
}

impl View for Duration {
    type V = nat;

    /// The length of the span in nanoseconds.
    open(crate) spec fn view(&self) -> nat {
        (self.secs * NANOS_PER_SEC + self.nanos) as nat
    }
}

impl Duration {
    /// The sub-second remainder stays below one second.
    #[verifier::type_invariant]
    pub open(crate) spec fn wf(self) -> bool {
        self.nanos < NANOS_PER_SEC
    }

    /// The longest span that can be held, in nanoseconds.
    pub open spec fn spec_max_nanos() -> nat {
        (u64::MAX * NANOS_PER_SEC + NANOS_PER_SEC - 1) as nat
    }

    /// The empty span.
    pub open(crate) spec fn spec_zero() -> Duration {
        Duration { secs: 0, nanos: 0 }
    }

    /// The longer of two spans; the second one where they are equally long.
    pub open spec fn spec_max(self, other: Duration) -> Duration {
        if other@ >= self@ {
            other
        } else {
            self
        }
    }

    /// A well-formed span is no longer than `spec_max_nanos()`.
    pub proof fn lemma_view_bounded(self)
        requires
            self.wf(),
        ensures
            self@ <= Self::spec_max_nanos(),
    {
        assert(self.secs * NANOS_PER_SEC <= u64::MAX * NANOS_PER_SEC) by (nonlinear_arith)
            requires
                self.secs <= u64::MAX,
        ;
    }

    /// Well-formed spans of the same length are equal.
    pub proof fn lemma_view_injective(self, other: Duration)
        requires
            self.wf(),
            other.wf(),
            self@ == other@,
        ensures
            self == other,
    {
        let a = self.secs as int;
        let b = other.secs as int;
        let n = NANOS_PER_SEC as int;
        assert(a == b) by (nonlinear_arith)
            requires
                a * n + self.nanos == b * n + other.nanos,
                0 <= self.nanos < n,
                0 <= other.nanos < n,
        ;
    }

    /// The empty span is well formed and has length zero.
    pub proof fn lemma_zero()
        ensures
            Self::spec_zero().wf(),
            Self::spec_zero()@ == 0,
    {
    }

    /// A span of `secs` seconds and `nanos` nanoseconds. Whole seconds held in
    /// `nanos` carry over into the seconds, which must not overflow.
    pub fn new(secs: u64, nanos: u32) -> (d: Duration)
        requires
            secs + nanos / NANOS_PER_SEC <= u64::MAX,
        ensures
            d.wf(),
            d@ == secs * NANOS_PER_SEC + nanos,
    {
        let carry: u32 = nanos / NANOS_PER_SEC;
        let rest: u32 = nanos % NANOS_PER_SEC;
        let whole: u64 = secs + carry as u64;
        assert(whole * NANOS_PER_SEC + rest == secs * NANOS_PER_SEC + nanos) by (nonlinear_arith)
            requires
                whole == secs + carry,
                nanos == carry * NANOS_PER_SEC + rest,
        ;
        Duration { secs: whole, nanos: rest }
    }

    /// A span of `secs` whole seconds.
    pub fn from_secs(secs: u64) -> (d: Duration)
        ensures
            d.wf(),
            d@ == secs * NANOS_PER_SEC,
    {
        Duration { secs, nanos: 0 }
    }

    /// A span of `millis` milliseconds.
    pub fn from_millis(millis: u64) -> (d: Duration)
        ensures
            d.wf(),
            d@ == millis * NANOS_PER_MILLI,
    {
        let secs: u64 = millis / MILLIS_PER_SEC;
        let rest: u64 = millis % MILLIS_PER_SEC;
        let nanos: u32 = (rest as u32) * NANOS_PER_MILLI;
        assert(secs * NANOS_PER_SEC + nanos == millis * NANOS_PER_MILLI) by (nonlinear_arith)
            requires
                millis == secs * MILLIS_PER_SEC + rest,
                nanos == rest * NANOS_PER_MILLI,
                NANOS_PER_SEC == MILLIS_PER_SEC * NANOS_PER_MILLI,
        ;
        Duration { secs, nanos }
    }

    /// The whole seconds in the span.
    pub fn as_secs(&self) -> (secs: u64)
        ensures
            secs == self@ / (NANOS_PER_SEC as nat),
    {
        proof {
            use_type_invariant(self);
            Self::lemma_split(self.secs as nat, self.nanos as nat);
        }
        self.secs
    }

    /// What is left of the span beyond its whole seconds, in nanoseconds.
    pub fn subsec_nanos(&self) -> (nanos: u32)
        ensures
            nanos == self@ % (NANOS_PER_SEC as nat),
    {
        proof {
            use_type_invariant(self);
            Self::lemma_split(self.secs as nat, self.nanos as nat);
        }
        self.nanos
    }

    /// The length of the span in nanoseconds.
    pub fn as_nanos(&self) -> (nanos: u128)
        ensures
            nanos == self@,
    {
        proof {
            use_type_invariant(self);
            self.lemma_view_bounded();
        }
        (self.secs as u128) * (NANOS_PER_SEC as u128) + (self.nanos as u128)
    }

    /// The longer of two spans.
    pub fn max(self, other: Duration) -> (d: Duration)
        ensures
            d == self.spec_max(other),
    {
        proof {
            use_type_invariant(self);
            use_type_invariant(other);
        }
        if other.as_nanos() >= self.as_nanos() {
            other
        } else {
            self
        }
    }

    proof fn lemma_split(secs: nat, nanos: nat)
        requires
            nanos < NANOS_PER_SEC,
        ensures
            (secs * NANOS_PER_SEC + nanos) / (NANOS_PER_SEC as int) == secs,
            (secs * NANOS_PER_SEC + nanos) % (NANOS_PER_SEC as int) == nanos,
    {
        let n = NANOS_PER_SEC as int;
        let v = secs * n + nanos;
        assert(v / n == secs && v % n == nanos) by (nonlinear_arith)
            requires
                v == secs * n + nanos,
                0 <= nanos < n,
                n > 0,
        ;
    }
}

} // verus!

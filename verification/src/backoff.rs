//! Backoff policies: how long to wait before the next attempt.

use crate::duration::Duration;
use vstd::prelude::*;

verus! {

/// A policy that says how long to wait before an operation is tried again.
///
/// The delays of a policy form a schedule, `period`, that is fixed when the
/// policy is made: a delay depends on the policy's parameters and on the number
/// of failed attempts alone. Asking for a delay yields the schedule's entry for
/// that number and leaves the schedule as it was, so that asking twice gives
/// the same delay.
///
/// `period` is what contracts speak of; `backoff_period` is what runs. A policy
/// written in unverified code supplies the schedule as `period` and returns it
/// from `backoff_period`.
pub trait Backoff {
    /// The delay that the policy prescribes after `iterations` failed attempts.
    spec fn period(&self, iterations: u32) -> Duration;

    /// The delay to wait after `iterations` failed attempts.
    fn backoff_period(&mut self, iterations: u32) -> (delay: Duration)
        ensures
            delay == old(self).period(iterations),
            forall|n: u32| #[trigger] final(self).period(n) == old(self).period(n),
    ;
}

/// A policy without any delay: every retry follows at once.
pub struct ImmediateBackoff;

impl Backoff for ImmediateBackoff {
    open spec fn period(&self, iterations: u32) -> Duration {
        Duration::spec_zero()
    }

    fn backoff_period(&mut self, iterations: u32) -> (delay: Duration)
        ensures
            delay@ == 0,
    {
        Duration::from_secs(0)
    }
}

/// A policy that keeps the delays of another policy at or above a floor.
pub struct MinimumBackoff<T: Backoff> {
    inner: T,
    min_duration: Duration,
}

impl<T: Backoff> MinimumBackoff<T> {
    /// The policy whose delays are bounded from below.
    pub closed spec fn inner(&self) -> T {
        self.inner
    }

    /// The shortest delay that this policy hands out.
    pub closed spec fn min_duration(&self) -> Duration {
        self.min_duration
    }

    /// Wraps `inner` so that no delay is shorter than `min_duration`.
    pub fn new(inner: T, min_duration: Duration) -> (policy: Self)
        ensures
            policy.inner() == inner,
            policy.min_duration() == min_duration,
    {
        Self { inner, min_duration }
    }
}

impl<T: Backoff> Backoff for MinimumBackoff<T> {
    open spec fn period(&self, iterations: u32) -> Duration {
        self.min_duration().spec_max(self.inner().period(iterations))
    }

    fn backoff_period(&mut self, iterations: u32) -> (delay: Duration)
        ensures
            delay@ >= old(self).min_duration()@,
            delay@ >= old(self).inner().period(iterations)@,
            final(self).min_duration() == old(self).min_duration(),
            forall|n: u32| #[trigger]
                final(self).inner().period(n) == old(self).inner().period(n),
    {
        self.min_duration.max(self.inner.backoff_period(iterations))
    }
}

impl<T: Backoff> MinimumBackoff<T> {
    /// A bounded policy prescribes the longer of the floor and what the inner
    /// policy prescribes: never less than either, and always one of the two.
    pub proof fn lemma_period_is_longer_of_both(self, iterations: u32)
        ensures
            self.period(iterations)@ >= self.min_duration()@,
            self.period(iterations)@ >= self.inner().period(iterations)@,
            self.period(iterations) == self.min_duration() || self.period(iterations)
                == self.inner().period(iterations),
    {
    }
}

/// The immediate policy prescribes no delay, whatever the number of failed
/// attempts.
pub proof fn lemma_immediate_never_waits(policy: ImmediateBackoff, iterations: u32)
    ensures
        policy.period(iterations)@ == 0,
{
}

/// Over the immediate policy, a bounded policy prescribes a delay as long as
/// its floor, whatever the number of failed attempts.
pub proof fn lemma_minimum_of_immediate(policy: MinimumBackoff<ImmediateBackoff>, iterations: u32)
    ensures
        policy.period(iterations)@ == policy.min_duration()@,
{
}

} // verus!

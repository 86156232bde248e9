//! Retrying on the calling thread, one attempt at a time.
//!
//! A [`Retry`] holds what a retry needs between attempts. Whoever drives it
//! calls [`Retry::attempt`] over and over, and sleeps where an attempt asks for
//! it, until an attempt reports that the retry is done.

use crate::backoff::Backoff;
use crate::duration::Duration;
use vstd::prelude::*;

verus! {

/// What is to happen after an attempt.
#[derive(Debug, PartialEq, Eq)]
pub enum Step<T, E> {
    /// The retry is over: with the value of the attempt that succeeded, or with
    /// the error of the attempt that the predicate refused to repeat.
    Done(Result<T, E>),
    /// The attempt failed and is to be repeated once the calling thread has
    /// slept for the given delay.
    Sleep(Duration),
}

/// An operation that is tried until it succeeds or the predicate vetoes.
pub struct Retry<B, F, P> {
    backoff: B,
    func: F,
    predicate: P,
    iterations: u32,
}

/// What a [`Retry`] holds.
pub struct RetryView<B, F, P> {
    /// The policy that times the attempts.
    pub backoff: B,
    /// The operation that is tried.
    pub func: F,
    /// The predicate that decides whether a failed attempt is repeated.
    pub predicate: P,
    /// The number of failed attempts that were repeated.
    pub iterations: u32,
}

impl<B, F, P> View for Retry<B, F, P> {
    type V = RetryView<B, F, P>;

    closed spec fn view(&self) -> RetryView<B, F, P> {
        RetryView {
            backoff: self.backoff,
            func: self.func,
            predicate: self.predicate,
            iterations: self.iterations,
        }
    }
}

impl<B, F, P> Retry<B, F, P> {
    /// The number of failed attempts that were repeated.
    pub fn iterations(&self) -> (count: u32)
        ensures
            count == self@.iterations,
    {
        self.iterations
    }
}

/// Prepares to run `func` until it succeeds or `predicate` vetoes a retry.
/// Nothing has been tried yet.
pub fn retry_if<B, F, P, T, E>(backoff: B, func: F, predicate: P) -> (task: Retry<B, F, P>) where
    B: Backoff,
    F: Fn() -> Result<T, E>,
    P: Fn(&E, u32) -> bool,

    ensures
        task@ == (RetryView { backoff, func, predicate, iterations: 0 }),
{
    Retry { backoff, func, predicate, iterations: 0 }
}

/// Prepares to run `func` until it succeeds: the predicate of the retry
/// approves of every repetition.
pub fn retry<B, F, T, E>(backoff: B, func: F) -> (task: Retry<B, F, impl Fn(&E, u32) -> bool>) where
    B: Backoff,
    F: Fn() -> Result<T, E>,

    ensures
        task@.backoff == backoff,
        task@.func == func,
        task@.iterations == 0,
        forall|e: &E, n: u32| #[trigger] task@.predicate.requires((e, n)),
        forall|e: &E, n: u32, go: bool| #[trigger] task@.predicate.ensures((e, n), go) ==> go,
{
    let always = |e: &E, n: u32| -> (go: bool)
        ensures
            go,
        { true };
    retry_if(backoff, func, always)
}

impl<B, F, P, T, E> RetryView<B, F, P> where
    B: Backoff,
    F: Fn() -> Result<T, E>,
    P: Fn(&E, u32) -> bool,
 {
    /// Whether the outcome of an attempt can be settled. A success always can.
    /// A failure can where the predicate accepts the error and the count, and
    /// where the count can still grow if the predicate approves.
    pub open spec fn may_settle(self, outcome: Result<T, E>) -> bool {
        outcome matches Err(e) ==> {
            &&& self.predicate.requires((&e, self.iterations))
            &&& self.predicate.ensures((&e, self.iterations), true) ==> self.iterations < u32::MAX
        }
    }

    /// `next` is this retry after one more failed attempt was approved for
    /// repetition: the count has grown by one, the operation and the predicate
    /// are the same, and the policy prescribes the delays it did before.
    pub open spec fn repeated(self, next: Self) -> bool {
        &&& next.iterations == self.iterations + 1
        &&& next.func == self.func
        &&& next.predicate == self.predicate
        &&& forall|n: u32| #[trigger] next.backoff.period(n) == self.backoff.period(n)
    }

    /// How settling `outcome` takes this retry to `next` and gives `step`.
    ///
    /// A success ends the retry with its value and changes nothing. A failure
    /// goes to the predicate, with the number of failures before it. On a veto
    /// the retry ends with the error, and nothing has changed: the policy was
    /// not asked. On approval the step asks for the delay that the policy
    /// prescribes for that number, and the failure is counted.
    pub open spec fn settled(self, outcome: Result<T, E>, next: Self, step: Step<T, E>) -> bool {
        match outcome {
            Ok(value) => step == Step::<T, E>::Done(Ok(value)) && next == self,
            Err(e) => match step {
                Step::Done(result) => {
                    &&& result == Err::<T, E>(e)
                    &&& self.predicate.ensures((&e, self.iterations), false)
                    &&& next == self
                },
                Step::Sleep(delay) => {
                    &&& self.predicate.ensures((&e, self.iterations), true)
                    &&& delay == self.backoff.period(self.iterations)
                    &&& self.repeated(next)
                },
            },
        }
    }

    /// How one attempt takes this retry to `next` and gives `step`: the
    /// operation has an outcome that, settled, does so. Where the retry is
    /// done, that outcome is what the step carries.
    pub open spec fn attempted(self, next: Self, step: Step<T, E>) -> bool {
        match step {
            Step::Done(outcome) => {
                &&& self.func.ensures((), outcome)
                &&& self.settled(outcome, next, step)
            },
            Step::Sleep(_) => exists|e: E| #[trigger]
                self.func.ensures((), Err(e)) && self.settled(Err(e), next, step),
        }
    }
}

/// Where the predicate approves of every repetition, settling an outcome
/// never ends the retry with an error: a failure always asks for a sleep.
pub proof fn lemma_unvetoed_settle_never_fails<B, F, P, T, E>(
    task: RetryView<B, F, P>,
    outcome: Result<T, E>,
    next: RetryView<B, F, P>,
    step: Step<T, E>,
) where B: Backoff, F: Fn() -> Result<T, E>, P: Fn(&E, u32) -> bool
    requires
        forall|e: &E, n: u32, go: bool| #[trigger] task.predicate.ensures((e, n), go) ==> go,
        task.settled(outcome, next, step),
    ensures
        !(step matches Step::Done(Err(_))),
        outcome is Err ==> step is Sleep,
{
}

/// Where the predicate approves of every repetition, as in a retry made by
/// [`retry`], no attempt ends the retry with an error: the retry is done only
/// with the value of an attempt that succeeded.
pub proof fn lemma_unvetoed_attempt_never_fails<B, F, P, T, E>(
    task: RetryView<B, F, P>,
    next: RetryView<B, F, P>,
    step: Step<T, E>,
) where B: Backoff, F: Fn() -> Result<T, E>, P: Fn(&E, u32) -> bool
    requires
        forall|e: &E, n: u32, go: bool| #[trigger] task.predicate.ensures((e, n), go) ==> go,
        task.attempted(next, step),
    ensures
        !(step matches Step::Done(Err(_))),
        step matches Step::Done(Ok(value)) ==> task.func.ensures((), Ok(value)),
{
}

/// Where the predicate vetoes the repetition of a failure, settling it ends
/// the retry with that very error, and leaves all as it was: nothing is
/// counted and the policy is not asked.
pub proof fn lemma_veto_ends_with_the_error<B, F, P, T, E>(
    task: RetryView<B, F, P>,
    e: E,
    next: RetryView<B, F, P>,
    step: Step<T, E>,
) where B: Backoff, F: Fn() -> Result<T, E>, P: Fn(&E, u32) -> bool
    requires
        forall|go: bool| #[trigger] task.predicate.ensures((&e, task.iterations), go) ==> !go,
        task.settled(Err(e), next, step),
    ensures
        step == Step::<T, E>::Done(Err(e)),
        next == task,
{
}

impl<B, F, P, T, E> Retry<B, F, P> where
    B: Backoff,
    F: Fn() -> Result<T, E>,
    P: Fn(&E, u32) -> bool,
 {
    /// Makes one attempt: runs the operation and settles its outcome.
    pub fn attempt(&mut self) -> (step: Step<T, E>)
        requires
            old(self)@.func.requires(()),
            forall|e: E| #[trigger]
                old(self)@.func.ensures((), Err(e)) ==> old(self)@.may_settle(Err(e)),
        ensures
            old(self)@.attempted(final(self)@, step),
    {
        let outcome = (self.func)();
        self.settle(outcome)
    }

    /// Settles the outcome of an attempt that the caller has made.
    pub fn settle(&mut self, outcome: Result<T, E>) -> (step: Step<T, E>)
        requires
            old(self)@.may_settle(outcome),
        ensures
            old(self)@.settled(outcome, final(self)@, step),
    {
        match outcome {
            Ok(value) => Step::Done(Ok(value)),
            Err(e) => {
                if !(self.predicate)(&e, self.iterations) {
                    return Step::Done(Err(e));
                }
                let delay = self.backoff.backoff_period(self.iterations);
                self.iterations = self.iterations + 1;
                Step::Sleep(delay)
            },
        }
    }
}

} // verus!

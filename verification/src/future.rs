//! Retrying as a task that a scheduler drives by polling.
//!
//! A [`RetryFuture`] never blocks. Whoever drives it polls in three moves:
//! [`RetryFuture::resume`] says whether the task may run at the given time;
//! if so, the driver polls the attempt in flight, which it reaches through
//! [`RetryFuture::future_mut`]; and [`RetryFuture::settle`] turns what that
//! poll gave into what the task reports. Where the report is a pause, the
//! driver asks its timer to signal the task once the delay has passed.
//!
//! Points in time are given as the time that has passed on the driver's clock.

use crate::backoff::Backoff;
use crate::duration::Duration;
use std::future::Future;
use vstd::prelude::*;

verus! {

/// Where a retry task stands.
#[derive(Clone, Copy, Debug, PartialEq, Eq, Structural)]
pub enum State {
    /// An attempt is in flight and may be polled.
    Running,
    /// The next attempt waits until the clock reaches the given number of
    /// nanoseconds.
    PausedUntil(u128),
    /// The task has reported its result and must not be polled again.
    Done,
}

impl State {
    /// Whether a task in this state may poll its attempt at the time `now`,
    /// given in nanoseconds.
    pub open spec fn runs_at(self, now: nat) -> bool {
        match self {
            State::Running => true,
            State::PausedUntil(deadline) => now >= deadline,
            State::Done => false,
        }
    }
}

/// What polling the attempt in flight gave.
#[derive(Debug, PartialEq, Eq)]
pub enum Polled<T, E> {
    /// The attempt has not resolved yet.
    Pending,
    /// The attempt has resolved, to success or to failure.
    Ready(Result<T, E>),
}

/// What one poll of a retry task reports.
#[derive(Debug, PartialEq, Eq)]
pub enum Progress<T, E> {
    /// Not ready: the attempt in flight has not resolved.
    Pending,
    /// Not ready: an attempt failed, and the next one waits for the given
    /// delay, after which the task is to be polled again.
    Paused(Duration),
    /// The task is over: with the value of the attempt that succeeded, or with
    /// the error of the attempt that the predicate refused to repeat.
    Ready(Result<T, E>),
}

/// A task that retries an operation.
pub struct RetryFuture<F, Fut, P, B> {
    factory: F,
    future: Fut,
    predicate: P,
    backoff: B,
    state: State,
    iterations: u32,
}

/// What a [`RetryFuture`] holds.
pub struct RetryFutureView<F, Fut, P, B> {
    /// The producer of attempts.
    pub factory: F,
    /// The attempt in flight.
    pub future: Fut,
    /// The predicate that decides whether a failed attempt is repeated.
    pub predicate: P,
    /// The policy that times the attempts.
    pub backoff: B,
    /// Where the task stands.
    pub state: State,
    /// The number of failed attempts so far.
    pub iterations: u32,
}

impl<F, Fut, P, B> View for RetryFuture<F, Fut, P, B> {
    type V = RetryFutureView<F, Fut, P, B>;

    closed spec fn view(&self) -> RetryFutureView<F, Fut, P, B> {
        RetryFutureView {
            factory: self.factory,
            future: self.future,
            predicate: self.predicate,
            backoff: self.backoff,
            state: self.state,
            iterations: self.iterations,
        }
    }
}

impl<F, Fut, P, B> RetryFuture<F, Fut, P, B> {
    /// Where the task stands.
    pub fn state(&self) -> (state: State)
        ensures
            state == self@.state,
    {
        self.state
    }

    /// The number of failed attempts so far.
    pub fn iterations(&self) -> (count: u32)
        ensures
            count == self@.iterations,
    {
        self.iterations
    }

    /// The attempt in flight, for the driver to poll it.
    pub fn future_mut(&mut self) -> (attempt: &mut Fut)
        ensures
            *attempt == old(self)@.future,
            final(self)@ == (RetryFutureView { future: *final(attempt), ..old(self)@ }),
    {
        &mut self.future
    }

    /// Says whether the task may poll its attempt at the time `now`, and ends
    /// a pause whose deadline has been reached. A task that is still paused
    /// stays as it is.
    pub fn resume(&mut self, now: Duration) -> (running: bool)
        requires
            old(self)@.state != State::Done,
        ensures
            running == old(self)@.state.runs_at(now@),
            running ==> final(self)@ == (RetryFutureView { state: State::Running, ..old(self)@ }),
            !running ==> final(self)@ == old(self)@,
    {
        match self.state {
            State::PausedUntil(deadline) => {
                if now.as_nanos() < deadline {
                    return false;
                }
                self.state = State::Running;
                true
            },
            _ => true,
        }
    }
}

/// Starts to run the attempts that `func` produces until one succeeds or
/// `predicate` vetoes a retry. The first attempt is made at once.
pub fn retry_if<B, F, P, T, E, Fut>(backoff: B, func: F, predicate: P) -> (task: RetryFuture<
    F,
    Fut,
    P,
    B,
>) where
    B: Backoff,
    F: Fn() -> Fut,
    Fut: Future<Output = Result<T, E>>,
    P: Fn(&E, u32) -> bool,

    requires
        func.requires(()),
    ensures
        func.ensures((), task@.future),
        task@ == (RetryFutureView {
            factory: func,
            future: task@.future,
            predicate,
            backoff,
            state: State::Running,
            iterations: 0,
        }),
{
    let future = func();
    RetryFuture { factory: func, future, predicate, backoff, state: State::Running, iterations: 0 }
}

/// Starts to run the attempts that `func` produces until one succeeds: the
/// predicate of the task approves of every repetition.
pub fn retry<B, F, T, E, Fut>(backoff: B, func: F) -> (task: RetryFuture<
    F,
    Fut,
    impl Fn(&E, u32) -> bool,
    B,
>) where
    B: Backoff,
    F: Fn() -> Fut,
    Fut: Future<Output = Result<T, E>>,

    requires
        func.requires(()),
    ensures
        func.ensures((), task@.future),
        task@.factory == func,
        task@.backoff == backoff,
        task@.state == State::Running,
        task@.iterations == 0,
        forall|e: &E, n: u32| #[trigger] task@.predicate.requires((e, n)),
        forall|e: &E, n: u32, go: bool| #[trigger] task@.predicate.ensures((e, n), go) ==> go,
{
    let always = |e: &E, n: u32| -> (go: bool)
        ensures
            go,
        { true };
    retry_if(backoff, func, always)
}

impl<T, E, F, Fut, P, B> RetryFutureView<F, Fut, P, B> where
    F: Fn() -> Fut,
    Fut: Future<Output = Result<T, E>>,
    P: Fn(&E, u32) -> bool,
    B: Backoff,
 {
    /// Whether what a poll of the attempt gave can be settled. A failure can
    /// where it can be counted, the predicate accepts the error and the new
    /// count, and the producer can be called if the predicate approves.
    pub open spec fn may_settle(self, polled: Polled<T, E>) -> bool {
        polled matches Polled::Ready(Err(e)) ==> {
            &&& self.iterations < u32::MAX
            &&& self.predicate.requires((&e, (self.iterations + 1) as u32))
            &&& self.predicate.ensures((&e, (self.iterations + 1) as u32), true)
                ==> self.factory.requires(())
        }
    }

    /// `next` is the same task after a failed attempt was approved for repetition
    /// at the time `now`: the failure is counted, a fresh attempt of the same
    /// producer is in flight, the task is paused until `delay` has passed, and
    /// the predicate and what the policy prescribes are as before.
    pub open spec fn repeated(self, now: Duration, delay: Duration, next: Self) -> bool {
        &&& next.iterations == self.iterations + 1
        &&& next.state matches State::PausedUntil(deadline) && deadline == now@ + delay@
        &&& self.factory.ensures((), next.future)
        &&& next.factory == self.factory
        &&& next.predicate == self.predicate
        &&& forall|n: u32| #[trigger] next.backoff.period(n) == self.backoff.period(n)
    }

    /// How settling `polled` at the time `now` takes a task to `next` and
    /// gives `progress`.
    ///
    /// An attempt that has not resolved leaves all as it is. A success ends the
    /// task with its value. A failure is counted and goes to the predicate with
    /// the new count. On a veto the task ends with the error: no attempt was
    /// produced and the policy was not asked. On approval the task pauses for
    /// the delay that the policy prescribes for the new count.
    pub open spec fn settled(
        self,
        polled: Polled<T, E>,
        now: Duration,
        next: Self,
        progress: Progress<T, E>,
    ) -> bool {
        match polled {
            Polled::Pending => progress == Progress::<T, E>::Pending && next == self,
            Polled::Ready(Ok(value)) => {
                &&& progress == Progress::<T, E>::Ready(Ok(value))
                &&& next == (RetryFutureView { state: State::Done, ..self })
            },
            Polled::Ready(Err(e)) => {
                let count = (self.iterations + 1) as u32;
                match progress {
                    Progress::Pending => false,
                    Progress::Ready(result) => {
                        &&& result == Err::<T, E>(e)
                        &&& self.predicate.ensures((&e, count), false)
                        &&& next == (RetryFutureView {
                            state: State::Done,
                            iterations: count,
                            ..self
                        })
                    },
                    Progress::Paused(delay) => {
                        &&& self.predicate.ensures((&e, count), true)
                        &&& delay == self.backoff.period(count)
                        &&& self.repeated(now, delay, next)
                    },
                }
            },
        }
    }
}

/// Where the predicate approves of every repetition, a task never ends with
/// an error: a failure always pauses it.
pub proof fn lemma_unvetoed_never_fails<T, E, F, Fut, P, B>(
    task: RetryFutureView<F, Fut, P, B>,
    polled: Polled<T, E>,
    now: Duration,
    next: RetryFutureView<F, Fut, P, B>,
    progress: Progress<T, E>,
) where
    F: Fn() -> Fut,
    Fut: Future<Output = Result<T, E>>,
    P: Fn(&E, u32) -> bool,
    B: Backoff,

    requires
        forall|e: &E, n: u32, go: bool| #[trigger] task.predicate.ensures((e, n), go) ==> go,
        task.settled(polled, now, next, progress),
    ensures
        !(progress matches Progress::Ready(Err(_))),
        polled matches Polled::Ready(Err(_)) ==> progress is Paused,
{
}

/// Where the predicate vetoes the repetition of a failure, the task ends with
/// that very error: the attempt in flight is not replaced and the policy is
/// not asked.
pub proof fn lemma_veto_ends_with_the_error<T, E, F, Fut, P, B>(
    task: RetryFutureView<F, Fut, P, B>,
    e: E,
    now: Duration,
    next: RetryFutureView<F, Fut, P, B>,
    progress: Progress<T, E>,
) where
    F: Fn() -> Fut,
    Fut: Future<Output = Result<T, E>>,
    P: Fn(&E, u32) -> bool,
    B: Backoff,

    requires
        forall|go: bool| #[trigger]
            task.predicate.ensures((&e, (task.iterations + 1) as u32), go) ==> !go,
        task.settled(Polled::Ready(Err(e)), now, next, progress),
    ensures
        progress == Progress::<T, E>::Ready(Err(e)),
        next.state == State::Done,
        next.future == task.future,
        next.backoff == task.backoff,
{
}

/// A task reports a result only together with reaching the state in which it
/// must not be polled again; without a result it stays short of that state.
pub proof fn lemma_ready_is_final<T, E, F, Fut, P, B>(
    task: RetryFutureView<F, Fut, P, B>,
    polled: Polled<T, E>,
    now: Duration,
    next: RetryFutureView<F, Fut, P, B>,
    progress: Progress<T, E>,
) where
    F: Fn() -> Fut,
    Fut: Future<Output = Result<T, E>>,
    P: Fn(&E, u32) -> bool,
    B: Backoff,

    requires
        task.state == State::Running,
        task.settled(polled, now, next, progress),
    ensures
        progress is Ready <==> next.state == State::Done,
{
}

/// A task that was paused for a failed attempt does not run before the delay
/// has passed, and runs from then on.
pub proof fn lemma_pause_lasts_for_the_delay<T, E, F, Fut, P, B>(
    task: RetryFutureView<F, Fut, P, B>,
    now: Duration,
    delay: Duration,
    next: RetryFutureView<F, Fut, P, B>,
    later: Duration,
) where
    F: Fn() -> Fut,
    Fut: Future<Output = Result<T, E>>,
    P: Fn(&E, u32) -> bool,
    B: Backoff,

    requires
        task.repeated(now, delay, next),
    ensures
        next.state.runs_at(later@) <==> later@ >= now@ + delay@,
{
}

impl<T, E, F, Fut, P, B> RetryFuture<F, Fut, P, B> where
    F: Fn() -> Fut,
    Fut: Future<Output = Result<T, E>>,
    P: Fn(&E, u32) -> bool,
    B: Backoff,
 {
    /// Settles what a poll of the attempt in flight gave, at the time `now`.
    pub fn settle(&mut self, polled: Polled<T, E>, now: Duration) -> (progress: Progress<T, E>)
        requires
            old(self)@.state == State::Running,
            old(self)@.may_settle(polled),
        ensures
            old(self)@.settled(polled, now, final(self)@, progress),
    {
        let result = match polled {
            Polled::Ready(result) => result,
            Polled::Pending => {
                return Progress::Pending;
            },
        };
        match result {
            Ok(value) => {
                self.state = State::Done;
                Progress::Ready(Ok(value))
            },
            Err(e) => {
                self.iterations = self.iterations + 1;
                let can_continue = (self.predicate)(&e, self.iterations);
                if !can_continue {
                    self.state = State::Done;
                    return Progress::Ready(Err(e));
                }
                self.future = (self.factory)();
                let delay = self.backoff.backoff_period(self.iterations);
                proof {
                    use_type_invariant(now);
                    use_type_invariant(delay);
                    now.lemma_view_bounded();
                    delay.lemma_view_bounded();
                }
                self.state = State::PausedUntil(now.as_nanos() + delay.as_nanos());
                Progress::Paused(delay)
            },
        }
    }
}

} // verus!

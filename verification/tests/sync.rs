use std::cell::{Cell, RefCell};
use tryagain::{retry, retry_if, Backoff, Duration, ImmediateBackoff, MinimumBackoff, Step};

/// A policy that waits 100 ms per failed attempt and counts how often it is
/// asked.
struct Counting<'a> {
    queries: &'a Cell<u32>,
}

impl<'a> Backoff for Counting<'a> {
    fn period(&self, iterations: u32) -> Duration {
        Duration::from_millis(100 * iterations as u64)
    }

    fn backoff_period(&mut self, iterations: u32) -> Duration {
        self.queries.set(self.queries.get() + 1);
        self.period(iterations)
    }
}

#[test]
fn fails_twice_then_succeeds() {
    let calls = Cell::new(0);
    let mut task = retry(ImmediateBackoff, || -> Result<&'static str, u32> {
        calls.set(calls.get() + 1);
        if calls.get() < 3 {
            Err(calls.get())
        } else {
            Ok("done")
        }
    });
    assert_eq!(task.iterations(), 0);
    assert_eq!(task.attempt(), Step::Sleep(Duration::from_millis(0)));
    assert_eq!(task.iterations(), 1);
    assert_eq!(task.attempt(), Step::Sleep(Duration::from_millis(0)));
    assert_eq!(task.iterations(), 2);
    assert_eq!(task.attempt(), Step::Done(Ok("done")));
    assert_eq!(task.iterations(), 2);
    assert_eq!(calls.get(), 3);
}

#[test]
fn veto_on_the_first_failure_returns_the_error_at_once() {
    let queries = Cell::new(0);
    let calls = Cell::new(0);
    let mut task = retry_if(
        Counting { queries: &queries },
        || -> Result<u8, &'static str> {
            calls.set(calls.get() + 1);
            Err("fatal")
        },
        |_: &&'static str, _| false,
    );
    assert_eq!(task.attempt(), Step::Done(Err("fatal")));
    assert_eq!(calls.get(), 1);
    assert_eq!(queries.get(), 0);
    assert_eq!(task.iterations(), 0);
}

#[test]
fn success_at_once_asks_neither_predicate_nor_policy() {
    let queries = Cell::new(0);
    let asked = Cell::new(0);
    let mut task = retry_if(
        Counting { queries: &queries },
        || -> Result<u8, u8> { Ok(42) },
        |_: &u8, _| {
            asked.set(asked.get() + 1);
            true
        },
    );
    assert_eq!(task.attempt(), Step::Done(Ok(42)));
    assert_eq!(asked.get(), 0);
    assert_eq!(queries.get(), 0);
    assert_eq!(task.iterations(), 0);
}

#[test]
fn predicate_sees_each_error_with_the_failures_before_it() {
    let seen = RefCell::new(Vec::new());
    let calls = Cell::new(0u32);
    let mut task = retry_if(
        ImmediateBackoff,
        || -> Result<(), u32> {
            calls.set(calls.get() + 1);
            Err(10 * calls.get())
        },
        |e: &u32, n| {
            seen.borrow_mut().push((*e, n));
            n < 2
        },
    );
    assert_eq!(task.attempt(), Step::Sleep(Duration::from_secs(0)));
    assert_eq!(task.attempt(), Step::Sleep(Duration::from_secs(0)));
    assert_eq!(task.attempt(), Step::Done(Err(30)));
    assert_eq!(*seen.borrow(), vec![(10, 0), (20, 1), (30, 2)]);
    assert_eq!(calls.get(), 3);
    assert_eq!(task.iterations(), 2);
}

#[test]
fn delays_follow_the_policy_from_count_zero() {
    let queries = Cell::new(0);
    let mut task = retry(Counting { queries: &queries }, || -> Result<(), ()> { Err(()) });
    assert_eq!(task.attempt(), Step::Sleep(Duration::from_millis(0)));
    assert_eq!(task.attempt(), Step::Sleep(Duration::from_millis(100)));
    assert_eq!(task.attempt(), Step::Sleep(Duration::from_millis(200)));
    assert_eq!(task.attempt(), Step::Sleep(Duration::from_millis(300)));
    assert_eq!(queries.get(), 4);
    assert_eq!(task.iterations(), 4);
}

#[test]
fn retry_never_ends_with_an_error() {
    let mut task = retry(
        MinimumBackoff::new(ImmediateBackoff, Duration::from_secs(1)),
        || -> Result<u8, &'static str> { Err("again") },
    );
    for n in 0..100 {
        assert_eq!(task.iterations(), n);
        assert_eq!(task.attempt(), Step::Sleep(Duration::from_secs(1)));
    }
}

#[test]
fn settle_takes_the_outcome_of_an_attempt_made_elsewhere() {
    let calls = Cell::new(0);
    let queries = Cell::new(0);
    let mut task = retry_if(
        Counting { queries: &queries },
        || -> Result<u8, u8> {
            calls.set(calls.get() + 1);
            Ok(0)
        },
        |e: &u8, _| *e != 9,
    );
    assert_eq!(task.settle(Err(1)), Step::Sleep(Duration::from_millis(0)));
    assert_eq!(task.settle(Err(2)), Step::Sleep(Duration::from_millis(100)));
    assert_eq!(task.iterations(), 2);
    assert_eq!(task.settle(Err(9)), Step::Done(Err(9)));
    assert_eq!(task.iterations(), 2);
    assert_eq!(task.settle(Ok(5)), Step::Done(Ok(5)));
    assert_eq!(task.iterations(), 2);
    assert_eq!(calls.get(), 0);
    assert_eq!(queries.get(), 2);
}

#[test]
fn the_last_count_can_still_be_vetoed_or_succeed() {
    let queries = Cell::new(0);
    let mut task = retry_if(
        Counting { queries: &queries },
        || -> Result<u8, u8> { Err(1) },
        |_: &u8, n| n < 3,
    );
    for _ in 0..3 {
        assert!(matches!(task.attempt(), Step::Sleep(_)));
    }
    assert_eq!(task.attempt(), Step::Done(Err(1)));
    assert_eq!(task.iterations(), 3);
    assert_eq!(queries.get(), 3);
}

//! Trying things again.
//!
//! An operation that may fail for a while is run until it succeeds, or until a
//! predicate refuses to have it repeated. A [`Backoff`] policy says how long to
//! wait between two attempts.
//!
//! The library decides; it neither sleeps nor waits. A retry on the calling
//! thread is a [`Retry`], made by [`retry`] or [`retry_if`]: each call of
//! [`Retry::attempt`] runs the operation once and says whether the retry is
//! done or how long to sleep before the next call. A retry as a task that a
//! scheduler polls is a [`future::RetryFuture`], made by [`future::retry`] or
//! [`future::retry_if`].

pub mod backoff;
pub mod duration;
pub mod future;
pub mod sync;

pub use backoff::{Backoff, ImmediateBackoff, MinimumBackoff};
pub use duration::Duration;
pub use sync::{retry, retry_if, Retry, RetryView, Step};

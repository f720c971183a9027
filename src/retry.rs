//! Errors that may or may not be worth another attempt, and what a retry
//! loop does with the outcome of one attempt.

use vstd::prelude::*;

verus! {

/// An error that is worth another attempt (`Retryable`) or not.
#[derive(Clone, Copy, Debug, PartialEq, Eq)]
pub enum MaybeRetryable<E, R> {
    Retryable(R),
    NotRetryable(E),
}

impl<E, R> MaybeRetryable<E, R> {
    /// Maps the error that is not worth another attempt with `op`, leaving a
    /// retryable one as it is.
    pub fn map<F, O: FnOnce(E) -> F>(self, op: O) -> (r: MaybeRetryable<F, R>)
        requires
            self matches MaybeRetryable::NotRetryable(e) ==> op.requires((e,)),
        ensures
            self matches MaybeRetryable::Retryable(x) ==> r == MaybeRetryable::<F, R>::Retryable(x),
            self matches MaybeRetryable::NotRetryable(e) ==> (r matches MaybeRetryable::NotRetryable(
                f,
            ) && op.ensures((e,), f)),
    {
        match self {
            MaybeRetryable::Retryable(e) => MaybeRetryable::Retryable(e),
            MaybeRetryable::NotRetryable(e) => MaybeRetryable::NotRetryable(op(e)),
        }
    }
}

/// What a retry loop does after one attempt.
#[derive(Debug)]
pub enum RetryStep<T, E, R> {
    /// Stop with this result.
    Finish(Result<T, E>),
    /// Report this error, wait the retry interval, and try again.
    Retry(R),
}

/// The step after an attempt that ended with `outcome`: a value or an error
/// not worth another attempt ends the loop; a retryable error is reported and
/// the attempt is made again.
pub fn next_retry_step<T, E, R>(outcome: Result<T, MaybeRetryable<E, R>>) -> (r: RetryStep<
    T,
    E,
    R,
>)
    ensures
        outcome matches Ok(v) ==> r == RetryStep::<T, E, R>::Finish(Ok(v)),
        outcome matches Err(MaybeRetryable::NotRetryable(e)) ==> r == RetryStep::<T, E, R>::Finish(
            Err(e),
        ),
        outcome matches Err(MaybeRetryable::Retryable(x)) ==> r == RetryStep::<T, E, R>::Retry(x),
{
    match outcome {
        Ok(value) => RetryStep::Finish(Ok(value)),
        Err(MaybeRetryable::NotRetryable(e)) => RetryStep::Finish(Err(e)),
        Err(MaybeRetryable::Retryable(e)) => RetryStep::Retry(e),
    }
}

} // verus!

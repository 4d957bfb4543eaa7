//! Repeating an attempt until it succeeds.
use vstd::prelude::*;

verus! {

/// An attempt that is being repeated: the number of the current attempt, how many attempts are
/// made at most, and how long to wait between two of them.
#[derive(Debug, Clone, Copy)]
pub struct Retry {
    pub attempt: u16,
    pub retries: u16,
    pub delay_nanos: u128,
}

/// What to do after an attempt.
pub enum RetryStep<T, E> {
    /// Give up repeating, with this result.
    Return(Result<T, E>),
    /// Make another attempt after the one that failed with `error`, and sleep before it if there is
    /// a delay.
    TryAgain { error: E, sleep_nanos: Option<u128> },
}

/// How long to sleep between two attempts.
pub open spec fn sleep_between(retry: Retry) -> Option<u128> {
    if retry.delay_nanos == 0 {
        None
    } else {
        Some(retry.delay_nanos)
    }
}

/// What follows an attempt: a success is returned, and so is the failure of the last attempt;
/// after any other failure the next attempt is made.
pub open spec fn retry_next<T, E>(retry: Retry, result: Result<T, E>) -> (Retry, RetryStep<T, E>) {
    if result is Ok || retry.attempt >= retry.retries {
        (retry, RetryStep::Return(result))
    } else {
        (
            Retry { attempt: (retry.attempt + 1) as u16, ..retry },
            RetryStep::TryAgain { error: result->Err_0, sleep_nanos: sleep_between(retry) },
        )
    }
}

/// Begins with the first of up to `retries` attempts. One attempt is made in any case.
pub fn do_with_retry(retries: u16, delay_nanos: u128) -> (retry: Retry)
    ensures
        retry == (Retry { attempt: 1, retries, delay_nanos }),
{
    Retry { attempt: 1, retries, delay_nanos }
}

impl Retry {
    /// Takes the result of an attempt, and says what to do next.
    pub fn step<T, E>(&mut self, result: Result<T, E>) -> (step: RetryStep<T, E>)
        ensures
            (*final(self), step) == retry_next(*old(self), result),
    {
        match result {
            Ok(value) => RetryStep::Return(Ok(value)),
            Err(error) => {
                if self.attempt >= self.retries {
                    return RetryStep::Return(Err(error));
                }
                self.attempt = self.attempt + 1;
                let sleep_nanos = if self.delay_nanos == 0 {
                    None
                } else {
                    Some(self.delay_nanos)
                };
                RetryStep::TryAgain { error, sleep_nanos }
            },
        }
    }
}

/// How the repetition ends if attempt `k` yields `attempts(k)`: the number of the last attempt, and
/// what is returned.
pub open spec fn retry_outcome<T, E>(
    retry: Retry,
    attempts: spec_fn(nat) -> Result<T, E>,
) -> (nat, Result<T, E>)
    decreases retry.retries - retry.attempt,
{
    let (next, step) = retry_next(retry, attempts(retry.attempt as nat));
    match step {
        RetryStep::Return(result) => (retry.attempt as nat, result),
        RetryStep::TryAgain { .. } => if retry.attempt < retry.retries {
            retry_outcome(next, attempts)
        } else {
            (retry.attempt as nat, attempts(retry.attempt as nat))
        },
    }
}

/// The repetition ends with the first attempt that succeeds, or else with the last one allowed,
/// and returns what that attempt yielded.
pub proof fn law_retry_ends_with_first_success<T, E>(
    retry: Retry,
    attempts: spec_fn(nat) -> Result<T, E>,
)
    ensures
        ({
            let (last, result) = retry_outcome(retry, attempts);
            let limit = if retry.attempt <= retry.retries {
                retry.retries as nat
            } else {
                retry.attempt as nat
            };
            &&& retry.attempt <= last <= limit
            &&& result == attempts(last)
            &&& forall|k: nat| retry.attempt <= k < last ==> (#[trigger] attempts(k)) is Err
            &&& result is Ok || last == limit
        }),
    decreases retry.retries - retry.attempt,
{
    let (next, step) = retry_next(retry, attempts(retry.attempt as nat));
    if step is TryAgain {
        law_retry_ends_with_first_success(next, attempts);
    }
}

/// How often there is a wait, if attempt `k` yields `attempts(k)`.
pub open spec fn retry_waits<T, E>(retry: Retry, attempts: spec_fn(nat) -> Result<T, E>) -> nat
    decreases retry.retries - retry.attempt,
{
    let (next, step) = retry_next(retry, attempts(retry.attempt as nat));
    match step {
        RetryStep::TryAgain { sleep_nanos, .. } if retry.attempt < retry.retries => retry_waits(
            next,
            attempts,
        ) + if sleep_nanos is Some {
            1nat
        } else {
            0nat
        },
        _ => 0,
    }
}

/// How many nanoseconds are waited in all, if attempt `k` yields `attempts(k)`.
pub open spec fn retry_waited<T, E>(retry: Retry, attempts: spec_fn(nat) -> Result<T, E>) -> nat
    decreases retry.retries - retry.attempt,
{
    let (next, step) = retry_next(retry, attempts(retry.attempt as nat));
    match step {
        RetryStep::TryAgain { sleep_nanos, .. } if retry.attempt < retry.retries => retry_waited(
            next,
            attempts,
        ) + match sleep_nanos {
            Some(nanos) => nanos as nat,
            None => 0nat,
        },
        _ => 0,
    }
}

/// Every wait is as long as the delay.
pub proof fn law_retry_waits_for_the_delay<T, E>(
    retry: Retry,
    attempts: spec_fn(nat) -> Result<T, E>,
)
    ensures
        retry_waited(retry, attempts) == retry_waits(retry, attempts) * retry.delay_nanos,
    decreases retry.retries - retry.attempt,
{
    let (next, step) = retry_next(retry, attempts(retry.attempt as nat));
    if step is TryAgain {
        law_retry_waits_for_the_delay(next, attempts);
        let waits = retry_waits(next, attempts);
        let delay = retry.delay_nanos as nat;
        assert((waits + 1) * delay == waits * delay + delay) by (nonlinear_arith);
    } else {
        assert(0 * retry.delay_nanos == 0);
    }
}

/// There is a wait between every two attempts, and neither before the first nor after the last one;
/// without a delay there is none at all.
pub proof fn law_retry_waits_between_attempts<T, E>(
    retry: Retry,
    attempts: spec_fn(nat) -> Result<T, E>,
)
    ensures
        retry_waits(retry, attempts) == if retry.delay_nanos == 0 {
            0
        } else {
            retry_outcome(retry, attempts).0 - retry.attempt
        },
    decreases retry.retries - retry.attempt,
{
    let (next, step) = retry_next(retry, attempts(retry.attempt as nat));
    if step is TryAgain {
        law_retry_waits_between_attempts(next, attempts);
    }
}

/// If every attempt fails, as many attempts are made as were allowed, and at least one.
pub proof fn law_retry_gives_up<T, E>(
    retries: u16,
    delay_nanos: u128,
    attempts: spec_fn(nat) -> Result<T, E>,
)
    requires
        forall|k: nat| (#[trigger] attempts(k)) is Err,
    ensures
        retry_outcome(Retry { attempt: 1, retries, delay_nanos }, attempts).0 == if retries == 0 {
            1
        } else {
            retries as nat
        },
{
    let retry = Retry { attempt: 1, retries, delay_nanos };
    law_retry_ends_with_first_success(retry, attempts);
    assert(attempts(retry_outcome(retry, attempts).0) is Err);
}

} // verus!

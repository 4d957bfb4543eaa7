//! Laws on repeating an attempt.
use crate::retry::{do_with_retry, Retry, RetryStep};
use vstd::prelude::*;

verus! {

/// The repetition begins with the first attempt, and keeps the number of attempts and the delay.
pub proof fn law_first_attempt(retries: u16, delay_nanos: u128, retry: Retry)
    requires
        call_ensures(do_with_retry, (retries, delay_nanos), retry),
    ensures
        retry.attempt == 1,
        retry.retries == retries,
        retry.delay_nanos == delay_nanos,
{
}

/// A success is returned. A failure is returned if as many attempts as allowed were made; else there
/// is another attempt, after a sleep as long as the delay if that is not zero.
pub proof fn law_failure_leads_to_the_next_attempt<T, E>(
    retry: &mut Retry,
    result: Result<T, E>,
    step: RetryStep<T, E>,
)
    requires
        call_ensures(Retry::step::<T, E>, (retry, result), step),
    ensures
        final(retry).retries == old(retry).retries,
        final(retry).delay_nanos == old(retry).delay_nanos,
        result is Ok || old(retry).attempt >= old(retry).retries ==> {
            &&& final(retry).attempt == old(retry).attempt
            &&& step == RetryStep::Return(result)
        },
        result is Err && old(retry).attempt < old(retry).retries ==> {
            &&& final(retry).attempt == old(retry).attempt + 1
            &&& step is TryAgain
            &&& step->error == result->Err_0
            &&& step->sleep_nanos is Some <==> old(retry).delay_nanos != 0
            &&& step->sleep_nanos is Some ==> step->sleep_nanos->0 == old(retry).delay_nanos
        },
{
}

/// After `k` failures in a row from the start, attempt `k + 1` is the current one, as long as fewer
/// than the allowed attempts were made; so the last error is returned after exactly as many attempts
/// as allowed, or one if none is allowed.
pub proof fn law_attempts_are_counted<T, E>(
    states: Seq<Retry>,
    errors: Seq<E>,
    steps: Seq<RetryStep<T, E>>,
    retries: u16,
    delay_nanos: u128,
    k: nat,
)
    requires
        k < errors.len(),
        states.len() == errors.len() + 1,
        steps.len() == errors.len(),
        call_ensures(do_with_retry, (retries, delay_nanos), states[0]),
        forall|i: int|
            0 <= i < errors.len() ==> fails_to(
                states[i],
                #[trigger] errors[i],
                states[i + 1],
                steps[i],
            ),
    ensures
        k + 1 < retries ==> steps[k as int] is TryAgain && states[k as int + 1].attempt == k + 2,
        k + 1 == retries || k == 0 && retries == 0 ==> steps[k as int] == RetryStep::Return(
            Err::<T, E>(errors[k as int]),
        ),
    decreases k,
{
    assert(fails_to(states[k as int], errors[k as int], states[k as int + 1], steps[k as int]));
    if k > 0 && k < retries {
        law_attempts_are_counted(states, errors, steps, retries, delay_nanos, (k - 1) as nat);
        lemma_retries_stay(states, errors, steps, retries, delay_nanos, k);
    }
}

/// Whether a failed attempt leads from one state to another with a step.
pub open spec fn fails_to<T, E>(
    before: Retry,
    error: E,
    after: Retry,
    step: RetryStep<T, E>,
) -> bool {
    (after, step) == crate::retry::retry_next(before, Err::<T, E>(error))
}

/// The number of attempts that are allowed stays the same.
proof fn lemma_retries_stay<T, E>(
    states: Seq<Retry>,
    errors: Seq<E>,
    steps: Seq<RetryStep<T, E>>,
    retries: u16,
    delay_nanos: u128,
    k: nat,
)
    requires
        k <= errors.len(),
        call_ensures(do_with_retry, (retries, delay_nanos), states[0]),
        forall|i: int|
            0 <= i < errors.len() ==> fails_to(
                states[i],
                #[trigger] errors[i],
                states[i + 1],
                steps[i],
            ),
    ensures
        states[k as int].retries == retries,
    decreases k,
{
    if k > 0 {
        lemma_retries_stay(states, errors, steps, retries, delay_nanos, (k - 1) as nat);
        assert(fails_to(states[k - 1], errors[k - 1], states[k - 1 + 1], steps[k - 1]));
    }
}

} // verus!

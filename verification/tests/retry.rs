use spawner::retry::{do_with_retry, RetryStep};

/// Runs to the end, with attempt `k` yielding `attempts[k - 1]`; the last entry is repeated.
fn run(
    retries: u16,
    delay_nanos: u128,
    attempts: &[Result<u8, u8>],
) -> (usize, usize, Result<u8, u8>) {
    let mut retry = do_with_retry(retries, delay_nanos);
    let mut calls: usize = 0;
    let mut sleeps: usize = 0;
    loop {
        let result = attempts[calls.min(attempts.len() - 1)];
        calls += 1;
        match retry.step(result) {
            RetryStep::Return(result) => return (calls, sleeps, result),
            RetryStep::TryAgain { error, sleep_nanos } => {
                assert_eq!(Err(error), result);
                if let Some(nanos) = sleep_nanos {
                    assert_eq!(nanos, delay_nanos);
                    sleeps += 1;
                }
            }
        }
    }
}

#[test]
fn a_first_success_is_returned() {
    assert_eq!(run(5, 1, &[Ok(9)]), (1, 0, Ok(9)));
    assert_eq!(run(0, 1, &[Ok(9)]), (1, 0, Ok(9)));
}

#[test]
fn attempts_are_repeated_until_one_succeeds() {
    assert_eq!(run(5, 1, &[Err(1), Err(2), Ok(3), Ok(4)]), (3, 2, Ok(3)));
    assert_eq!(run(3, 1, &[Err(1), Err(2), Ok(3)]), (3, 2, Ok(3)));
}

#[test]
fn the_last_error_is_returned() {
    assert_eq!(run(3, 1, &[Err(1), Err(2), Err(3), Ok(4)]), (3, 2, Err(3)));
    assert_eq!(run(1, 1, &[Err(1), Ok(2)]), (1, 0, Err(1)));
}

#[test]
fn one_attempt_is_made_in_any_case() {
    assert_eq!(run(0, 1, &[Err(1), Ok(2)]), (1, 0, Err(1)));
}

#[test]
fn without_a_delay_there_is_no_sleep() {
    assert_eq!(run(3, 0, &[Err(1)]), (3, 0, Err(1)));
}

#[test]
fn every_sleep_is_as_long_as_the_delay() {
    assert_eq!(run(4, 250_000_000, &[Err(1)]), (4, 3, Err(1)));
    assert_eq!(run(2, u128::MAX, &[Err(1), Ok(2)]), (2, 1, Ok(2)));
}

#[test]
fn the_largest_number_of_attempts_is_made() {
    assert_eq!(run(u16::MAX, 1, &[Err(1)]), (65535, 65534, Err(1)));
}

use lunchbot::retry::{backoff_ms, retry_step, Outcome, RetryStep, BASE_BACKOFF_MS, MAX_RETRIES};

#[test]
fn backoff_doubles_from_two_seconds() {
    assert_eq!(BASE_BACKOFF_MS, 2000);
    assert_eq!(backoff_ms(1), 2000);
    assert_eq!(backoff_ms(2), 4000);
    assert_eq!(backoff_ms(3), 8000);
    assert_eq!(backoff_ms(10), 1_024_000);
}

#[test]
fn done_and_fatal_end_the_call() {
    assert!(matches!(retry_step(3, Outcome::Done(7u8), 200, ""), RetryStep::Finish(Ok(7))));
    match retry_step::<u8>(1, Outcome::Fatal("nope".to_string()), 400, "") {
        RetryStep::Finish(Err(m)) => assert_eq!(m, "nope"),
        _ => panic!("expected the fatal error"),
    }
}

#[test]
fn retries_wait_then_give_up() {
    let mut attempt = 1u32;
    let mut total = 0u64;
    let mut calls = 0;
    loop {
        calls += 1;
        match retry_step::<u8>(attempt, Outcome::Retry, 503, "busy") {
            RetryStep::Wait { backoff_ms, next_attempt } => {
                assert_eq!(next_attempt, attempt + 1);
                total += backoff_ms;
                attempt = next_attempt;
            }
            RetryStep::Finish(r) => {
                assert_eq!(r.unwrap_err(), "Gemini still failing after 10 retries (last status 503): busy");
                break;
            }
        }
    }
    assert_eq!(calls, MAX_RETRIES as usize + 1);
    assert_eq!(total, 2_046_000);
}

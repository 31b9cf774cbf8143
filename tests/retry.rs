use fractalbot::retry::{annotate_retries, decimal, retries_str, Retry, RetryDecision, MAX_ATTEMPTS};

#[test]
fn any_retries_every_error_with_doubling_backoff() {
    let retry: Retry<fn(&u32) -> bool> = Retry::any();
    assert_eq!(retry.handle(1, 7u32), RetryDecision::WaitRetry(2));
    assert_eq!(retry.handle(2, 7u32), RetryDecision::WaitRetry(4));
    assert_eq!(retry.handle(3, 7u32), RetryDecision::WaitRetry(8));
    assert_eq!(retry.handle(4, 7u32), RetryDecision::WaitRetry(16));
}

#[test]
fn last_allowed_attempt_still_waits() {
    let retry: Retry<fn(&u32) -> bool> = Retry::any();
    assert_eq!(retry.handle(MAX_ATTEMPTS, 7u32), RetryDecision::WaitRetry(32));
}

#[test]
fn attempts_beyond_the_limit_forward_the_error() {
    let retry: Retry<fn(&u32) -> bool> = Retry::any();
    assert_eq!(retry.handle(MAX_ATTEMPTS + 1, 7u32), RetryDecision::ForwardError(7));
    assert_eq!(retry.handle(100, 9u32), RetryDecision::ForwardError(9));
}

#[test]
fn when_retries_only_selected_errors() {
    let retry = Retry::when(|e: &u32| *e == 206);
    assert_eq!(retry.handle(2, 206u32), RetryDecision::WaitRetry(4));
    assert_eq!(retry.handle(2, 500u32), RetryDecision::ForwardError(500));
    assert_eq!(retry.handle(6, 206u32), RetryDecision::ForwardError(206));
}

#[test]
fn when_predicate_is_not_consulted_after_the_limit() {
    let retry = Retry::when(|_: &u32| -> bool { panic!("consulted") });
    assert_eq!(retry.handle(6, 1u32), RetryDecision::ForwardError(1));
}

#[test]
fn annotate_success_drops_the_count() {
    let res: Result<(&str, usize), (u8, usize)> = Ok(("done", 3));
    let annotated = annotate_retries(res);
    assert!(matches!(annotated, Ok("done")));
}

#[test]
fn annotate_failure_keeps_error_and_count() {
    let res: Result<((), usize), (u8, usize)> = Err((42, 4));
    let failure = annotate_retries(res).unwrap_err();
    assert_eq!(failure.error, 42);
    assert_eq!(failure.retries, 4);
    assert_eq!(failure.message(), "Failed to upload image after 4 retries");
}

#[test]
fn failure_message_uses_singular_for_one_retry() {
    let res: Result<((), usize), (u8, usize)> = Err((1, 1));
    let failure = annotate_retries(res).unwrap_err();
    assert_eq!(failure.message(), "Failed to upload image after 1 retry");
}

#[test]
fn failure_message_for_zero_and_many_retries() {
    let zero: Result<((), usize), (u8, usize)> = Err((1, 0));
    assert_eq!(annotate_retries(zero).unwrap_err().message(), "Failed to upload image after 0 retries");
    let many: Result<((), usize), (u8, usize)> = Err((1, 12));
    assert_eq!(annotate_retries(many).unwrap_err().message(), "Failed to upload image after 12 retries");
}

#[test]
fn retries_noun() {
    assert_eq!(retries_str(1), "retry");
    assert_eq!(retries_str(0), "retries");
    assert_eq!(retries_str(2), "retries");
}

#[test]
fn decimal_notation() {
    assert_eq!(decimal(0), "0");
    assert_eq!(decimal(7), "7");
    assert_eq!(decimal(10), "10");
    assert_eq!(decimal(1234567890), "1234567890");
    assert_eq!(decimal(usize::MAX), usize::MAX.to_string());
}

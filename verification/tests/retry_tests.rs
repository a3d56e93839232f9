use ottex::retry::{is_retryable_error, RetryBackoff, RetryDecision};

#[test]
fn test_is_retryable_error() {
    assert!(is_retryable_error("HTTP error 429: rate limited"));
    assert!(is_retryable_error("error 503 service unavailable"));
    assert!(is_retryable_error("connection reset"));
    assert!(!is_retryable_error("API key invalid 401"));
}

/// Runs a schedule against scripted attempt outcomes (`None` for success,
/// `Some(retryable)` for a failure); returns the attempts made, whether the
/// last one succeeded, and the waits in between.
fn run(max_retries: u32, initial: u128, outcomes: &[Option<bool>]) -> (usize, bool, Vec<u128>) {
    let mut b = RetryBackoff::new(max_retries, initial);
    let mut waits = Vec::new();
    let mut attempts = 0;
    for o in outcomes {
        attempts += 1;
        match o {
            None => return (attempts, true, waits),
            Some(retryable) => match b.on_failure(*retryable) {
                RetryDecision::GiveUp => return (attempts, false, waits),
                RetryDecision::Retry { wait_nanos } => waits.push(wait_nanos),
            },
        }
    }
    (attempts, false, waits)
}

#[test]
fn backoff_success_on_first_try() {
    let (attempts, ok, waits) = run(3, 10_000_000, &[None]);
    assert_eq!(attempts, 1);
    assert!(ok);
    assert!(waits.is_empty());
}

#[test]
fn backoff_success_after_failures() {
    let (attempts, ok, waits) = run(3, 10_000_000, &[Some(true), Some(true), None]);
    assert_eq!(attempts, 3);
    assert!(ok);
    assert_eq!(waits, vec![10_000_000, 20_000_000]);
}

#[test]
fn backoff_exhaustion() {
    let outcomes = [Some(true); 10];
    let (attempts, ok, waits) = run(2, 10_000_000, &outcomes);
    assert_eq!(attempts, 3);
    assert!(!ok);
    assert_eq!(waits, vec![10_000_000, 20_000_000]);
}

#[test]
fn backoff_non_retryable_fails_immediately() {
    let (attempts, ok, waits) = run(3, 10_000_000, &[Some(false), None]);
    assert_eq!(attempts, 1);
    assert!(!ok);
    assert!(waits.is_empty());
}

#[test]
fn backoff_zero_retries_tries_once() {
    let (attempts, ok, _) = run(0, 500_000_000, &[Some(true), None]);
    assert_eq!(attempts, 1);
    assert!(!ok);
}

#[test]
fn backoff_state_after_retry() {
    let mut b = RetryBackoff::new(3, 500_000_000);
    assert_eq!(b.on_failure(true), RetryDecision::Retry { wait_nanos: 500_000_000 });
    assert_eq!(b.attempt, 1);
    assert_eq!(b.delay_nanos, 1_000_000_000);
    assert_eq!(b.on_failure(false), RetryDecision::GiveUp);
    assert_eq!(b.attempt, 1);
}

#[test]
fn backoff_delay_range() {
    let b = RetryBackoff::new(3, 500_000_000);
    assert!(b.next_delay_fits());
    let big = RetryBackoff::new(3, ottex::retry::MAX_DURATION_NANOS);
    assert!(!big.next_delay_fits());
}

#[test]
fn retryable_statuses_and_connection_errors() {
    for code in ["429", "500", "502", "503", "504"] {
        assert!(is_retryable_error(&format!("OpenAI API error {} Server Error: x", code)));
    }
    assert!(is_retryable_error("request timed out"));
    assert!(is_retryable_error("read timeout"));
    assert!(!is_retryable_error("OpenAI API error 400 Bad Request: bad"));
    assert!(!is_retryable_error(""));
    assert!(!is_retryable_error("Failed to send request to OpenAI"));
}

use rust_fetch::method::HttpMethod;
use rust_fetch::retry::{
    run_attempts, Attempter, FailureKind, RequestFailure, RetryDecision, RETRY_BASE_DELAY_MS,
};

fn connect_failure() -> RequestFailure {
    RequestFailure { kind: FailureKind::Connect, broken_pipe: false }
}

fn status_failure(code: u16) -> RequestFailure {
    RequestFailure { kind: FailureKind::Status(code), broken_pipe: false }
}

#[test]
fn non_idempotent_transient_status_not_retried() {
    // POST with a 500: transient in itself, but not provably
    // pre-transmission, so never retried whatever the ceiling.
    let mut att = Attempter::new(HttpMethod::Post, 1000);
    assert_eq!(att.handle(&status_failure(500)), RetryDecision::Forward);
}

#[test]
fn non_idempotent_timeout_not_retried() {
    let mut att = Attempter::new(HttpMethod::Patch, 1000);
    let f = RequestFailure { kind: FailureKind::Timeout, broken_pipe: false };
    assert_eq!(att.handle(&f), RetryDecision::Forward);
}

#[test]
fn non_idempotent_connect_failure_retried() {
    let mut att = Attempter::new(HttpMethod::Post, 5);
    assert_eq!(
        att.handle(&connect_failure()),
        RetryDecision::WaitRetry { delay_ms: RETRY_BASE_DELAY_MS }
    );
}

#[test]
fn non_idempotent_broken_pipe_retried() {
    let mut att = Attempter::new(HttpMethod::Post, 5);
    let f = RequestFailure { kind: FailureKind::Other, broken_pipe: true };
    assert_eq!(att.handle(&f), RetryDecision::WaitRetry { delay_ms: RETRY_BASE_DELAY_MS });
}

#[test]
fn idempotent_connect_retried_until_ceiling() {
    let mut att = Attempter::new(HttpMethod::Get, 3);
    assert_eq!(att.handle(&connect_failure()), RetryDecision::WaitRetry { delay_ms: 200 });
    assert_eq!(att.handle(&connect_failure()), RetryDecision::WaitRetry { delay_ms: 400 });
    assert_eq!(att.handle(&connect_failure()), RetryDecision::Forward);
}

#[test]
fn delay_grows_linearly() {
    let mut att = Attempter::new(HttpMethod::Get, 10);
    for n in 1u64..6 {
        match att.handle(&connect_failure()) {
            RetryDecision::WaitRetry { delay_ms } => {
                assert_eq!(delay_ms, RETRY_BASE_DELAY_MS * n)
            }
            RetryDecision::Forward => panic!("retry expected below the ceiling"),
        }
    }
}

#[test]
fn first_delay_is_exactly_base() {
    let mut att = Attempter::new(HttpMethod::Get, 2);
    assert_eq!(
        att.handle(&connect_failure()),
        RetryDecision::WaitRetry { delay_ms: RETRY_BASE_DELAY_MS }
    );
}

#[test]
fn status_429_retried_when_ceiling_allows() {
    let mut att = Attempter::new(HttpMethod::Get, 2);
    assert_eq!(att.handle(&status_failure(429)), RetryDecision::WaitRetry { delay_ms: 200 });
}

#[test]
fn status_404_never_retried() {
    let mut att = Attempter::new(HttpMethod::Get, 1000);
    assert_eq!(att.handle(&status_failure(404)), RetryDecision::Forward);
}

#[test]
fn transient_status_whitelist() {
    for code in [408u16, 413, 429, 500, 502, 503, 504, 521, 522, 524] {
        let mut att = Attempter::new(HttpMethod::Get, 2);
        assert_eq!(
            att.handle(&status_failure(code)),
            RetryDecision::WaitRetry { delay_ms: 200 },
            "status {} should be retried",
            code
        );
    }
    for code in [400u16, 401, 403, 404, 418, 501, 505] {
        let mut att = Attempter::new(HttpMethod::Get, 2);
        assert_eq!(
            att.handle(&status_failure(code)),
            RetryDecision::Forward,
            "status {} should be final",
            code
        );
    }
}

#[test]
fn unrecognised_failure_retried_by_default() {
    let mut att = Attempter::new(HttpMethod::Get, 2);
    let f = RequestFailure { kind: FailureKind::Other, broken_pipe: false };
    assert_eq!(att.handle(&f), RetryDecision::WaitRetry { delay_ms: 200 });
}

#[test]
fn get_with_three_attempts_against_steady_503() {
    // A GET with an attempts ceiling of 3 against an endpoint that
    // always answers 503: exactly 3 attempts, two backoff waits, and
    // the last 503 surfaced as the final error.
    let outcomes = vec![
        Some(status_failure(503)),
        Some(status_failure(503)),
        Some(status_failure(503)),
    ];
    let trace = run_attempts(HttpMethod::Get, 3, &outcomes);
    assert_eq!(trace.attempts_made, 3);
    assert_eq!(trace.delays_ms, vec![200, 400]);
    assert_eq!(trace.outcome, Some(status_failure(503)));
}

#[test]
fn idempotent_connect_failures_run_to_the_ceiling() {
    let outcomes = vec![Some(connect_failure()); 4];
    let trace = run_attempts(HttpMethod::Get, 4, &outcomes);
    assert_eq!(trace.attempts_made, 4);
    assert_eq!(trace.delays_ms, vec![200, 400, 600]);
    assert_eq!(trace.outcome, Some(connect_failure()));
}

#[test]
fn success_on_first_attempt_stops_the_loop() {
    let outcomes = vec![None, Some(connect_failure()), Some(connect_failure())];
    let trace = run_attempts(HttpMethod::Get, 3, &outcomes);
    assert_eq!(trace.attempts_made, 1);
    assert!(trace.delays_ms.is_empty());
    assert_eq!(trace.outcome, None);
}

#[test]
fn success_after_one_retry() {
    let outcomes = vec![Some(connect_failure()), None, Some(connect_failure())];
    let trace = run_attempts(HttpMethod::Get, 3, &outcomes);
    assert_eq!(trace.attempts_made, 2);
    assert_eq!(trace.delays_ms, vec![200]);
    assert_eq!(trace.outcome, None);
}

#[test]
fn ceiling_of_one_makes_a_single_attempt() {
    let outcomes = vec![Some(connect_failure())];
    let trace = run_attempts(HttpMethod::Get, 1, &outcomes);
    assert_eq!(trace.attempts_made, 1);
    assert!(trace.delays_ms.is_empty());
    assert_eq!(trace.outcome, Some(connect_failure()));
}

#[test]
fn post_forwards_status_failure_immediately_in_loop() {
    let outcomes = vec![Some(status_failure(503)), Some(status_failure(503))];
    let trace = run_attempts(HttpMethod::Post, 2, &outcomes);
    assert_eq!(trace.attempts_made, 1);
    assert!(trace.delays_ms.is_empty());
    assert_eq!(trace.outcome, Some(status_failure(503)));
}

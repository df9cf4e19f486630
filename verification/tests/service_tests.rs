use fibonacci::render_u64;
use fibonacci::AdmissionError;
use fibonacci::ServerState;

#[test]
fn test_validation_bounds() {
    let mut s = ServerState::new(1000, 50);
    assert_eq!(s.handle(0), Err(AdmissionError::InvalidInput));
    assert_eq!(s.handle(51), Err(AdmissionError::InvalidInput));
    assert_eq!(s.handle(50), Ok(12586269025));
    assert_eq!(s.metrics.status_400, 2);
    assert_eq!(s.metrics.status_200, 1);
    assert_eq!(s.budget, 1);
}

#[test]
fn test_sequential_admissions_count_exactly() {
    let mut s = ServerState::new(5, 50);
    for n in [2u32, 3, 4, 5, 6] {
        assert!(s.handle(n).is_ok());
    }
    assert_eq!(s.budget, 5);
    assert_eq!(s.metrics.requests_total, 5);
    assert_eq!(s.metrics.status_200, 5);
}

#[test]
fn test_limit_reached_counts_each_rejection() {
    let mut s = ServerState::new(1, 50);
    assert_eq!(s.handle(10), Ok(55));
    assert_eq!(s.budget, 1);
    for round in 1..=3u64 {
        assert_eq!(s.handle(10), Err(AdmissionError::RateLimitExceeded));
        assert_eq!(s.metrics.limit_reached_total, round);
        assert_eq!(s.budget, 1);
    }
    assert_eq!(s.metrics.status_429, 3);
}

#[test]
fn test_reset_restores_service() {
    let mut s = ServerState::new(2, 50);
    assert!(s.handle(4).is_ok());
    assert!(s.handle(6).is_ok());
    assert_eq!(s.handle(7), Err(AdmissionError::RateLimitExceeded));
    s.reset();
    assert_eq!(s.budget, 0);
    assert_eq!(s.handle(7), Ok(13));
    assert_eq!(s.budget, 1);
}

#[test]
fn test_status_codes_audit_every_outcome() {
    let mut s = ServerState::new(2, 10);
    assert!(s.handle(3).is_ok());
    assert!(s.handle(0).is_err());
    assert!(s.handle(4).is_ok());
    assert!(s.handle(5).is_err());
    assert!(s.handle(100).is_err());
    let handled = 5;
    assert_eq!(
        s.metrics.status_200 + s.metrics.status_400 + s.metrics.status_429 + s.metrics.status_500,
        handled
    );
    s.record_internal_error();
    assert_eq!(s.metrics.status_500, 1);
    assert_eq!(
        s.metrics.status_200 + s.metrics.status_400 + s.metrics.status_429 + s.metrics.status_500,
        handled + 1
    );
}

#[test]
fn test_example_scenario() {
    let mut s = ServerState::new(3, 50);
    assert_eq!(s.handle(5), Ok(5));
    assert_eq!(s.handle(8), Ok(21));
    assert_eq!(s.handle(13), Ok(233));
    assert_eq!(s.handle(21), Err(AdmissionError::RateLimitExceeded));
    assert_eq!(s.budget, 3);
    s.reset();
    assert_eq!(s.handle(5), Ok(5));
    assert_eq!(s.budget, 1);
}

#[test]
fn test_readiness_reflects_headroom() {
    let mut s = ServerState::new(2, 50);
    assert!(s.is_ready());
    assert_eq!(s.budget_text(), "0/2");
    assert!(s.handle(9).is_ok());
    assert!(s.is_ready());
    assert_eq!(s.budget_text(), "1/2");
    assert!(s.handle(9).is_ok());
    assert!(!s.is_ready());
    assert_eq!(s.budget_text(), "2/2");
}

#[test]
fn test_rejected_load_is_still_observed() {
    let mut s = ServerState::new(0, 50);
    // Budget exhausted from the start: a valid input is refused but observed.
    assert_eq!(s.handle(7), Err(AdmissionError::RateLimitExceeded));
    assert_eq!(s.metrics.latest_input, 7);
    assert_eq!(s.metrics.input_count, 1);
    // An invalid input is refused before the observation step.
    assert_eq!(s.handle(0), Err(AdmissionError::InvalidInput));
    assert_eq!(s.metrics.latest_input, 7);
    assert_eq!(s.metrics.input_count, 1);
}

#[test]
fn test_response_sizes_follow_digit_counts() {
    let mut s = ServerState::new(10, 50);
    assert_eq!(s.handle(21), Ok(10946));
    assert_eq!(s.metrics.response_size_count, 1);
    assert_eq!(s.metrics.response_size_sum, 5);
    assert_eq!(s.handle(50), Ok(12586269025));
    assert_eq!(s.metrics.response_size_count, 2);
    assert_eq!(s.metrics.response_size_sum, 5 + 11);
}

#[test]
fn test_render_u64_writes_decimal_digits() {
    assert_eq!(render_u64(0), "0");
    assert_eq!(render_u64(7), "7");
    assert_eq!(render_u64(10946), "10946");
    assert_eq!(render_u64(12586269025), "12586269025");
    assert_eq!(render_u64(u64::MAX), "18446744073709551615");
}

#[test]
fn test_split_admission_and_completion() {
    let mut s = ServerState::new(3, 50);
    assert_eq!(s.try_admit(9), Ok(()));
    assert_eq!(s.metrics.active_requests, 1);
    assert_eq!(s.budget, 1);
    let body = s.complete(34);
    assert_eq!(body, "34");
    assert_eq!(s.metrics.active_requests, 0);
    assert_eq!(s.metrics.requests_total, 1);
    assert_eq!(s.metrics.duration_count, 1);
}

#[test]
fn test_refusal_messages() {
    assert_eq!(
        AdmissionError::InvalidInput.message(),
        "n must be at least 1 and at most the configured maximum"
    );
    assert_eq!(
        AdmissionError::RateLimitExceeded.message(),
        "Thank you for using our Fibonacci service! You have reached the daily request limit. \
         Please come back tomorrow or contact us if you need additional requests."
    );
}

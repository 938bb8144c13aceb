use decrust::AdmissionDecision;
use decrust::AklypseError;
use decrust::CircuitBreaker;
use decrust::CircuitBreakerConfig;
use decrust::CircuitState;

#[test]
fn test_circuit_breaker_initial_state() {
    let config = CircuitBreakerConfig::default();
    let cb = CircuitBreaker::new("test-circuit".to_string(), config);

    assert_eq!(cb.state(), CircuitState::Closed);
}

#[test]
fn circuitbreaker_test_circuit_breaker_initial_state() {
    let cb = CircuitBreaker::new("test".to_string(), CircuitBreakerConfig::default());
    assert_eq!(cb.state(), CircuitState::Closed);
}

#[test]
fn test_circuit_breaker_trip() {
    let config = CircuitBreakerConfig::default();
    let mut cb = CircuitBreaker::new("test-circuit".to_string(), config);

    // Initial state should be Closed
    assert_eq!(cb.state(), CircuitState::Closed);

    // Trip the circuit
    cb.trip(0);

    // State should now be Open
    assert_eq!(cb.state(), CircuitState::Open);

    // Reset the circuit
    cb.reset(0);

    // State should be Closed again
    assert_eq!(cb.state(), CircuitState::Closed);
}

#[test]
fn test_circuit_breaker_execute_success() {
    let config = CircuitBreakerConfig::default();
    let mut cb = CircuitBreaker::new("test-circuit".to_string(), config);

    // A successful operation admitted while Closed
    let (decision, event) = cb.try_admit(0);
    assert!(matches!(decision, AdmissionDecision::AdmittedClosed));
    assert!(event.is_none());
    let result: Result<i32, AklypseError> = Ok(42);
    cb.record_success(1, 1);

    assert!(result.is_ok());
    assert_eq!(result.unwrap(), 42);
    assert_eq!(cb.metrics().successful_requests, 1);
}

#[test]
fn test_circuit_breaker_execute_error() {
    let config = CircuitBreakerConfig::default();
    let mut cb = CircuitBreaker::new("test-circuit".to_string(), config);

    // An operation that returns an error, admitted while Closed
    let (decision, _) = cb.try_admit(0);
    assert!(matches!(decision, AdmissionDecision::AdmittedClosed));
    let result: Result<i32, AklypseError> =
        Err(AklypseError::internal("Test error".to_string(), None));
    cb.record_failure(1, 1);

    assert!(result.is_err());
    assert_eq!(cb.metrics().failed_requests, 1);
}

fn scenario_config() -> CircuitBreakerConfig {
    CircuitBreakerConfig {
        failure_threshold: 3,
        reset_timeout_ms: 50,
        success_threshold_to_close: 2,
        half_open_max_concurrent_operations: 1,
        operation_timeout_ms: None,
        ..CircuitBreakerConfig::default()
    }
}

#[test]
fn test_full_recovery_cycle() {
    let mut cb = CircuitBreaker::new("cycle".to_string(), scenario_config());

    // Three consecutive failures open the circuit on the third
    for t in 0..3u64 {
        let (d, _) = cb.try_admit(t);
        assert!(matches!(d, AdmissionDecision::AdmittedClosed));
        let event = cb.record_failure(1, t);
        if t < 2 {
            assert!(event.is_none());
        } else {
            assert!(event.is_some());
        }
    }
    assert_eq!(cb.state(), CircuitState::Open);

    // An immediate fourth call is rejected with the remaining reset time
    let (d, _) = cb.try_admit(2);
    match d {
        AdmissionDecision::Rejected { retry_after_ms } => assert!(retry_after_ms <= 50),
        _ => panic!("expected rejection while Open"),
    }

    // After the reset timeout the next call sees HalfOpen and runs
    let (d, event) = cb.try_admit(60);
    assert!(matches!(d, AdmissionDecision::AdmittedHalfOpen));
    let event = event.expect("expected the transition to HalfOpen");
    assert_eq!(event.from_state, CircuitState::Open);
    assert_eq!(event.to_state, CircuitState::HalfOpen);
    assert_eq!(event.reason, "Reset timeout elapsed");

    // Two successes through the admission gate close the circuit
    cb.record_success(1, 61);
    cb.release_half_open_probe();
    assert_eq!(cb.state(), CircuitState::HalfOpen);
    let (d, _) = cb.try_admit(62);
    assert!(matches!(d, AdmissionDecision::AdmittedHalfOpen));
    let event = cb.record_success(1, 63);
    cb.release_half_open_probe();
    assert!(event.is_some());
    assert_eq!(cb.state(), CircuitState::Closed);
}

#[test]
fn test_half_open_concurrency_limit() {
    let mut cb = CircuitBreaker::new("probes".to_string(), scenario_config());
    cb.trip(0);

    // Move to HalfOpen and take the single probe slot
    let (d, _) = cb.try_admit(60);
    assert!(matches!(d, AdmissionDecision::AdmittedHalfOpen));
    let before = cb.metrics();

    // A second concurrent call is rejected with the fixed probe back-off
    let (d, _) = cb.try_admit(61);
    match d {
        AdmissionDecision::Rejected { retry_after_ms } => assert_eq!(retry_after_ms, 100),
        _ => panic!("expected rejection at the probe limit"),
    }

    // The rejected call does not touch the consecutive counters
    let after = cb.metrics();
    assert_eq!(after.consecutive_failures, before.consecutive_failures);
    assert_eq!(after.consecutive_successes, before.consecutive_successes);
    assert_eq!(after.rejected_requests, before.rejected_requests + 1);
}

#[test]
fn test_half_open_failure_reopens() {
    let mut cb = CircuitBreaker::new("reopen".to_string(), scenario_config());
    cb.trip(0);
    let (d, _) = cb.try_admit(60);
    assert!(matches!(d, AdmissionDecision::AdmittedHalfOpen));

    let event = cb.record_failure(1, 61).expect("a HalfOpen failure must open");
    cb.release_half_open_probe();
    assert_eq!(event.to_state, CircuitState::Open);
    assert_eq!(event.reason, "Failure in half-open state");
    assert_eq!(cb.state(), CircuitState::Open);
}

#[test]
fn test_failure_rate_opens_circuit() {
    let config = CircuitBreakerConfig {
        failure_rate_threshold_hundredths: 50,
        minimum_request_threshold_for_rate: 10,
        failure_threshold: 1000,
        sliding_window_size: 20,
        ..CircuitBreakerConfig::default()
    };
    let mut cb = CircuitBreaker::new("rate".to_string(), config);

    // Four successes and six failures: ten entries at sixty percent
    for t in 0..4u64 {
        cb.try_admit(t);
        cb.record_success(1, t);
    }
    for t in 4..9u64 {
        cb.try_admit(t);
        assert!(cb.record_failure(1, t).is_none());
        assert_eq!(cb.state(), CircuitState::Closed);
    }
    cb.try_admit(9);
    let event = cb.record_failure(1, 9).expect("the rate rule must fire on the tenth entry");
    assert_eq!(event.reason, "Failure threshold reached");
    assert_eq!(cb.state(), CircuitState::Open);

    let m = cb.metrics();
    let rate = m.failure_rate_in_window.expect("ten entries give a rate");
    assert_eq!(rate.count, 6);
    assert_eq!(rate.window_len, 10);
}

#[test]
fn test_timeout_recording() {
    let config = CircuitBreakerConfig {
        operation_timeout_ms: Some(10),
        slow_call_duration_threshold_ms: Some(5),
        ..CircuitBreakerConfig::default()
    };
    let mut cb = CircuitBreaker::new("timeouts".to_string(), config);

    cb.try_admit(0);
    cb.record_timeout(10, 10);

    let m = cb.metrics();
    assert_eq!(m.timeout_requests, 1);
    assert_eq!(m.failed_requests, 0);
    assert_eq!(m.consecutive_failures, 1);
    let slow = m.slow_call_rate_in_window.expect("one entry gives a rate");
    assert_eq!(slow.count, 1);
    assert_eq!(slow.window_len, 1);
}

#[test]
fn test_trip_then_reset_clears_everything() {
    let mut cb = CircuitBreaker::new("clear".to_string(), CircuitBreakerConfig::default());
    cb.try_admit(0);
    cb.record_failure(1, 0);
    cb.trip(1);
    cb.reset(2);

    assert_eq!(cb.state(), CircuitState::Closed);
    let m = cb.metrics();
    assert_eq!(m.consecutive_failures, 0);
    assert_eq!(m.consecutive_successes, 0);
    assert!(m.failure_rate_in_window.is_none());
    assert!(m.slow_call_rate_in_window.is_none());
}

#[test]
fn test_request_totals_add_up() {
    let mut cb = CircuitBreaker::new("totals".to_string(), scenario_config());
    cb.try_admit(0);
    cb.record_success(1, 0);
    cb.try_admit(1);
    cb.record_failure(1, 1);
    cb.try_admit(2);
    cb.record_timeout(1, 2);
    cb.try_admit(3);
    cb.record_failure(1, 3);
    // The circuit is Open now; the next call is rejected and recorded
    let (d, _) = cb.try_admit(4);
    assert!(matches!(d, AdmissionDecision::Rejected { .. }));

    let m = cb.metrics();
    assert_eq!(
        m.total_requests,
        m.successful_requests + m.failed_requests + m.rejected_requests + m.timeout_requests
    );
    assert_eq!(m.total_requests, 5);
}

#[test]
fn test_sliding_window_is_bounded() {
    let config = CircuitBreakerConfig {
        sliding_window_size: 3,
        failure_threshold: 1000,
        minimum_request_threshold_for_rate: 1000,
        ..CircuitBreakerConfig::default()
    };
    let mut cb = CircuitBreaker::new("window".to_string(), config);
    for t in 0..10u64 {
        cb.try_admit(t);
        cb.record_success(1, t);
    }
    let m = cb.metrics();
    let rate = m.failure_rate_in_window.expect("entries give a rate");
    assert_eq!(rate.window_len, 3);
    assert_eq!(rate.count, 0);
}

#[test]
fn test_consecutive_counters_are_exclusive() {
    let mut cb = CircuitBreaker::new("streaks".to_string(), CircuitBreakerConfig::default());
    cb.try_admit(0);
    cb.record_success(1, 0);
    cb.try_admit(1);
    cb.record_success(1, 1);
    let m = cb.metrics();
    assert_eq!(m.consecutive_successes, 2);
    assert_eq!(m.consecutive_failures, 0);

    cb.try_admit(2);
    cb.record_failure(1, 2);
    let m = cb.metrics();
    assert_eq!(m.consecutive_failures, 1);
    assert_eq!(m.consecutive_successes, 0);
}

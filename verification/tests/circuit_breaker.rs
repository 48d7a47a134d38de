use alice_cloud_gateway::circuit_breaker::{CircuitBreaker, CircuitBreakerConfig, CircuitState};

// Recovery timeout check as a clock-keeping caller makes it.
fn elapsed(now: f64, opened_at: f64, recovery_timeout_s: f64) -> bool {
    (now - opened_at) >= recovery_timeout_s
}

#[test]
fn circuit_breaker_default_config() {
    let config = CircuitBreakerConfig::default();
    assert_eq!(config.failure_threshold, 5);
    assert_eq!(config.half_open_max_requests, 3);
}

#[test]
fn starts_closed() {
    let cb = CircuitBreaker::with_defaults();
    assert_eq!(cb.state(), CircuitState::Closed);
}

#[test]
fn allows_in_closed() {
    let mut cb = CircuitBreaker::with_defaults();
    assert!(cb.allow_request(false));
}

#[test]
fn opens_after_threshold() {
    let config = CircuitBreakerConfig {
        failure_threshold: 3,
        ..Default::default()
    };
    let mut cb = CircuitBreaker::new(config);
    for _ in 0..3 {
        cb.record_failure();
    }
    assert_eq!(cb.state(), CircuitState::Open);
}

#[test]
fn rejects_in_open() {
    let config = CircuitBreakerConfig {
        failure_threshold: 1,
        ..Default::default()
    };
    let mut cb = CircuitBreaker::new(config);
    cb.record_failure();
    assert_eq!(cb.state(), CircuitState::Open);
    assert!(!cb.allow_request(elapsed(5.0, 0.0, 10.0)));
}

#[test]
fn transitions_to_half_open() {
    let config = CircuitBreakerConfig {
        failure_threshold: 1,
        half_open_max_requests: 2,
    };
    let mut cb = CircuitBreaker::new(config);
    cb.record_failure();
    assert_eq!(cb.state(), CircuitState::Open);
    assert!(cb.allow_request(elapsed(11.0, 0.0, 10.0)));
    assert_eq!(cb.state(), CircuitState::HalfOpen);
}

#[test]
fn half_open_to_closed_on_success() {
    let config = CircuitBreakerConfig {
        failure_threshold: 1,
        half_open_max_requests: 2,
    };
    let mut cb = CircuitBreaker::new(config);
    cb.record_failure();
    cb.allow_request(elapsed(6.0, 0.0, 5.0));
    cb.record_success();
    cb.allow_request(elapsed(6.0, 0.0, 5.0));
    cb.record_success();
    assert_eq!(cb.state(), CircuitState::Closed);
}

#[test]
fn half_open_to_open_on_failure() {
    let config = CircuitBreakerConfig {
        failure_threshold: 1,
        half_open_max_requests: 3,
    };
    let mut cb = CircuitBreaker::new(config);
    cb.record_failure();
    cb.allow_request(elapsed(6.0, 0.0, 5.0));
    cb.record_failure();
    assert_eq!(cb.state(), CircuitState::Open);
}

#[test]
fn half_open_limits_requests() {
    let config = CircuitBreakerConfig {
        failure_threshold: 1,
        half_open_max_requests: 2,
    };
    let mut cb = CircuitBreaker::new(config);
    cb.record_failure();
    cb.allow_request(elapsed(6.0, 0.0, 5.0));
    assert!(cb.allow_request(elapsed(6.0, 0.0, 5.0)));
    assert!(!cb.allow_request(elapsed(6.0, 0.0, 5.0)));
}

#[test]
fn success_resets_failures_in_closed() {
    let mut cb = CircuitBreaker::with_defaults();
    cb.record_failure();
    cb.record_failure();
    assert_eq!(cb.consecutive_failures(), 2);
    cb.record_success();
    assert_eq!(cb.consecutive_failures(), 0);
}

#[test]
fn manual_reset() {
    let config = CircuitBreakerConfig {
        failure_threshold: 1,
        ..Default::default()
    };
    let mut cb = CircuitBreaker::new(config);
    cb.record_failure();
    assert_eq!(cb.state(), CircuitState::Open);
    cb.reset();
    assert_eq!(cb.state(), CircuitState::Closed);
    assert_eq!(cb.consecutive_failures(), 0);
}

#[test]
fn transition_count_tracks() {
    let config = CircuitBreakerConfig {
        failure_threshold: 1,
        half_open_max_requests: 1,
    };
    let mut cb = CircuitBreaker::new(config);
    assert_eq!(cb.transition_count(), 0);
    cb.record_failure();
    assert_eq!(cb.transition_count(), 1);
    cb.allow_request(elapsed(6.0, 0.0, 5.0));
    assert_eq!(cb.transition_count(), 2);
}

// Full cycle: closed, open, half-open, closed, with transitions counted once each.
#[test]
fn full_cycle_counts_each_transition() {
    let config = CircuitBreakerConfig {
        failure_threshold: 2,
        half_open_max_requests: 1,
    };
    let mut cb = CircuitBreaker::new(config);
    cb.record_failure();
    assert_eq!(cb.state(), CircuitState::Closed);
    cb.record_failure();
    assert_eq!(cb.state(), CircuitState::Open);
    cb.record_failure();
    assert_eq!(cb.transition_count(), 1);
    assert!(!cb.allow_request(false));
    assert!(cb.allow_request(true));
    assert_eq!(cb.state(), CircuitState::HalfOpen);
    assert!(!cb.allow_request(true));
    cb.record_success();
    assert_eq!(cb.state(), CircuitState::Closed);
    assert_eq!(cb.consecutive_failures(), 0);
    assert_eq!(cb.transition_count(), 3);
    cb.reset();
    assert_eq!(cb.transition_count(), 3);
}

// Reset from half-open closes the circuit and counts one transition.
#[test]
fn reset_from_half_open() {
    let config = CircuitBreakerConfig {
        failure_threshold: 1,
        half_open_max_requests: 5,
    };
    let mut cb = CircuitBreaker::new(config);
    cb.record_failure();
    assert!(cb.allow_request(true));
    cb.reset();
    assert_eq!(cb.state(), CircuitState::Closed);
    assert_eq!(cb.transition_count(), 3);
}

// With no trial requests allowed, recovery refuses and the circuit stays open.
#[test]
fn zero_half_open_limit_refuses() {
    let config = CircuitBreakerConfig {
        failure_threshold: 1,
        half_open_max_requests: 0,
    };
    let mut cb = CircuitBreaker::new(config);
    cb.record_failure();
    assert!(!cb.allow_request(elapsed(11.0, 0.0, 10.0)));
    assert_eq!(cb.state(), CircuitState::Open);
    assert_eq!(cb.transition_count(), 1);
}

// One half-open episode lets through exactly the limit, then refuses.
#[test]
fn half_open_episode_passes_at_most_limit() {
    let config = CircuitBreakerConfig {
        failure_threshold: 1,
        half_open_max_requests: 3,
    };
    let mut cb = CircuitBreaker::new(config);
    cb.record_failure();
    let mut passed = 0;
    for _ in 0..10 {
        if cb.allow_request(true) {
            passed += 1;
        }
        assert_eq!(cb.state(), CircuitState::HalfOpen);
    }
    assert_eq!(passed, 3);
}

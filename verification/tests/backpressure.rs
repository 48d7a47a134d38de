use alice_cloud_gateway::backpressure::{BackpressureConfig, BackpressureController, FlowAction};

#[test]
fn backpressure_default_config() {
    let config = BackpressureConfig::default();
    assert_eq!(config.max_inflight, 10_000);
    assert_eq!(config.high_watermark, 8_000);
    assert_eq!(config.low_watermark, Some(5_000));
    assert_eq!(config.max_queue_len, 50_000);
}

#[test]
fn allow_when_idle() {
    let mut ctrl = BackpressureController::with_defaults();
    assert_eq!(ctrl.evaluate(), FlowAction::Allow);
}

#[test]
fn throttle_at_high_watermark() {
    let config = BackpressureConfig {
        max_inflight: 100,
        high_watermark: 80,
        low_watermark: Some(50),
        max_queue_len: 1000,
    };
    let mut ctrl = BackpressureController::new(config);
    for _ in 0..80 {
        ctrl.on_request_start();
    }
    assert_eq!(ctrl.evaluate(), FlowAction::Throttle);
}

#[test]
fn reject_at_max_inflight() {
    let config = BackpressureConfig {
        max_inflight: 10,
        ..Default::default()
    };
    let mut ctrl = BackpressureController::new(config);
    for _ in 0..10 {
        ctrl.on_request_start();
    }
    assert_eq!(ctrl.evaluate(), FlowAction::Reject);
}

#[test]
fn reject_at_max_queue() {
    let config = BackpressureConfig {
        max_queue_len: 5,
        ..Default::default()
    };
    let mut ctrl = BackpressureController::new(config);
    ctrl.update_queue_len(5);
    assert_eq!(ctrl.evaluate(), FlowAction::Reject);
}

#[test]
fn hysteresis() {
    let config = BackpressureConfig {
        max_inflight: 100,
        high_watermark: 80,
        low_watermark: Some(50),
        max_queue_len: 10_000,
    };
    let mut ctrl = BackpressureController::new(config);
    for _ in 0..80 {
        ctrl.on_request_start();
    }
    assert_eq!(ctrl.evaluate(), FlowAction::Throttle);
    for _ in 0..10 {
        ctrl.on_request_complete();
    }
    assert_eq!(ctrl.evaluate(), FlowAction::Throttle);
    for _ in 0..21 {
        ctrl.on_request_complete();
    }
    assert_eq!(ctrl.evaluate(), FlowAction::Allow);
}

#[test]
fn request_lifecycle() {
    let mut ctrl = BackpressureController::with_defaults();
    ctrl.on_request_start();
    assert_eq!(ctrl.inflight(), 1);
    ctrl.on_request_complete();
    assert_eq!(ctrl.inflight(), 0);
}

#[test]
fn complete_underflow_safe() {
    let mut ctrl = BackpressureController::with_defaults();
    ctrl.on_request_complete();
    assert_eq!(ctrl.inflight(), 0);
}

#[test]
fn rejected_count_increments() {
    let config = BackpressureConfig {
        max_inflight: 1,
        ..Default::default()
    };
    let mut ctrl = BackpressureController::new(config);
    ctrl.on_request_start();
    let _ = ctrl.evaluate();
    let _ = ctrl.evaluate();
    assert_eq!(ctrl.rejected_count(), 2);
}

#[test]
fn throttled_count_increments() {
    let config = BackpressureConfig {
        max_inflight: 10,
        high_watermark: 5,
        low_watermark: Some(3),
        max_queue_len: 10_000,
    };
    let mut ctrl = BackpressureController::new(config);
    for _ in 0..5 {
        ctrl.on_request_start();
    }
    let _ = ctrl.evaluate();
    let _ = ctrl.evaluate();
    assert_eq!(ctrl.throttled_count(), 2);
}

#[test]
fn is_throttling_flag() {
    let ctrl = BackpressureController::with_defaults();
    assert!(!ctrl.is_throttling());
}

#[test]
fn update_queue_len() {
    let mut ctrl = BackpressureController::with_defaults();
    ctrl.update_queue_len(100);
    assert_eq!(ctrl.evaluate(), FlowAction::Allow);
}

// A rejection leaves the throttling flag untouched.
#[test]
fn reject_keeps_throttling_flag() {
    let config = BackpressureConfig {
        max_inflight: 10,
        high_watermark: 5,
        low_watermark: Some(2),
        max_queue_len: 3,
    };
    let mut ctrl = BackpressureController::new(config);
    for _ in 0..6 {
        ctrl.on_request_start();
    }
    assert_eq!(ctrl.evaluate(), FlowAction::Throttle);
    ctrl.update_queue_len(3);
    assert_eq!(ctrl.evaluate(), FlowAction::Reject);
    assert!(ctrl.is_throttling());
    assert_eq!(ctrl.rejected_count(), 1);
    assert_eq!(ctrl.throttled_count(), 1);
}

// Exactly at the low watermark throttling stops.
#[test]
fn low_watermark_is_inclusive() {
    let config = BackpressureConfig {
        max_inflight: 100,
        high_watermark: 80,
        low_watermark: Some(50),
        max_queue_len: 1000,
    };
    let mut ctrl = BackpressureController::new(config);
    for _ in 0..80 {
        ctrl.on_request_start();
    }
    assert_eq!(ctrl.evaluate(), FlowAction::Throttle);
    for _ in 0..30 {
        ctrl.on_request_complete();
    }
    assert_eq!(ctrl.inflight(), 50);
    assert_eq!(ctrl.evaluate(), FlowAction::Allow);
    assert!(!ctrl.is_throttling());
}

// Without a low watermark, throttling never stops once started.
#[test]
fn no_low_watermark_keeps_throttling() {
    let config = BackpressureConfig {
        max_inflight: 10,
        high_watermark: 5,
        low_watermark: None,
        max_queue_len: 100,
    };
    let mut ctrl = BackpressureController::new(config);
    for _ in 0..5 {
        ctrl.on_request_start();
    }
    assert_eq!(ctrl.evaluate(), FlowAction::Throttle);
    for _ in 0..5 {
        ctrl.on_request_complete();
    }
    assert_eq!(ctrl.inflight(), 0);
    assert_eq!(ctrl.evaluate(), FlowAction::Throttle);
}

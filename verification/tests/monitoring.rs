use yudian_ai_tool::error::AppError;
use yudian_ai_tool::monitoring::{
    monitor_backoff, monitor_error_message, should_emit_monitor_error, MonitorLoop,
};

#[test]
fn monitor_backoff_doubles_and_caps_at_thirty_seconds() {
    let interval = 1000;

    assert_eq!(monitor_backoff(interval, 1), 1000);
    assert_eq!(monitor_backoff(interval, 2), 2000);
    assert_eq!(monitor_backoff(interval, 3), 4000);
    assert_eq!(monitor_backoff(interval, 4), 8000);
    assert_eq!(monitor_backoff(interval, 5), 8000);
    assert_eq!(monitor_backoff(10_000, 3), 30_000);
    assert_eq!(monitor_backoff(60_000, 2), 60_000);
}

#[test]
fn monitor_error_events_are_rate_limited_to_state_changes() {
    assert!(should_emit_monitor_error(1));
    assert!(should_emit_monitor_error(2));
    assert!(should_emit_monitor_error(3));
    assert!(!should_emit_monitor_error(4));
    assert!(should_emit_monitor_error(5));
    assert!(!should_emit_monitor_error(6));
}

#[test]
fn monitor_error_messages_escalate() {
    let error = AppError::Timeout;
    assert_eq!(monitor_error_message(1, &error), "operation timed out");
    assert_eq!(
        monitor_error_message(3, &error),
        "monitoring connection unstable after 3 consecutive failures: operation timed out"
    );
    assert_eq!(
        monitor_error_message(5, &error),
        "monitoring stopped after 5 consecutive failures"
    );
}

#[test]
fn monitoring_backs_off_reports_and_stops_after_five_failures() {
    let mut monitor = MonitorLoop::new(100);
    assert_eq!(monitor.interval_ms(), 200);

    let first = monitor.on_failure(&AppError::Timeout);
    assert_eq!(first.notice.as_deref(), Some("operation timed out"));
    assert!(!first.stop && !first.publish);
    assert_eq!(first.wait_ms, 200);

    let second = monitor.on_failure(&AppError::Timeout);
    assert_eq!(second.wait_ms, 400);
    let third = monitor.on_failure(&AppError::Timeout);
    assert!(third.notice.unwrap().starts_with("monitoring connection unstable after 3"));
    assert_eq!(third.wait_ms, 800);
    let fourth = monitor.on_failure(&AppError::Timeout);
    assert!(fourth.notice.is_none());
    assert_eq!(fourth.wait_ms, 1600);
    let fifth = monitor.on_failure(&AppError::Timeout);
    assert!(fifth.stop);
    assert_eq!(
        fifth.notice.as_deref(),
        Some("monitoring stopped after 5 consecutive failures")
    );
}

#[test]
fn a_reading_after_failures_announces_recovery() {
    let mut monitor = MonitorLoop::new(1000);
    let quiet = monitor.on_success();
    assert!(quiet.notice.is_none() && quiet.publish && !quiet.stop);
    assert_eq!(quiet.wait_ms, 1000);

    monitor.on_failure(&AppError::Timeout);
    monitor.on_failure(&AppError::Timeout);
    let recovered = monitor.on_success();
    assert_eq!(recovered.notice.as_deref(), Some("monitoring recovered"));
    // The count starts again: the next failure is the first one.
    assert_eq!(monitor.on_failure(&AppError::Timeout).wait_ms, 1000);
}

#[test]
fn a_busy_device_is_not_a_monitoring_failure() {
    let mut monitor = MonitorLoop::new(500);
    for _ in 0..10 {
        let plan = monitor.on_failure(&AppError::Busy);
        assert!(plan.notice.is_none() && !plan.stop && !plan.publish);
        assert_eq!(plan.wait_ms, 500);
    }
    assert_eq!(monitor.on_failure(&AppError::Timeout).wait_ms, 500);
}

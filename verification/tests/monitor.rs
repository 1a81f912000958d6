//! Lifecycle of the tap monitor and the per-event tap decision.

use keytap::errors::MonitorError;
use keytap::keys::Event;
use keytap::keys::EventType;
use keytap::keys::Key;
use keytap::monitor::KeyboardMonitor;
use keytap::monitor::RawEvent;
use keytap::monitor::decide_tap_event;

#[test]
fn new_monitor_is_not_listening() {
    let monitor = KeyboardMonitor::new();
    assert!(!monitor.is_listening());
}

#[test]
fn start_claims_the_flag() {
    let mut monitor = KeyboardMonitor::new();
    assert!(monitor.start_monitoring().is_ok());
    assert!(monitor.is_listening());
}

#[test]
fn second_start_without_stop_is_already_running() {
    let mut monitor = KeyboardMonitor::new();
    assert!(monitor.start_monitoring().is_ok());
    assert_eq!(monitor.start_monitoring(), Err(MonitorError::AlreadyRunning));
    assert!(monitor.is_listening());
}

#[test]
fn start_after_stop_succeeds_again() {
    let mut monitor = KeyboardMonitor::new();
    assert!(monitor.start_monitoring().is_ok());
    monitor.stop();
    assert!(!monitor.is_listening());
    assert!(monitor.start_monitoring().is_ok());
}

#[test]
fn key_down_while_listening_is_translated_and_delivered() {
    let decision = decide_tap_event(true, RawEvent::KeyDown(36));
    assert_eq!(
        decision.notification,
        Some(Event { event_type: EventType::KeyPress(Key::Return) })
    );
    assert!(!decision.intercept);
}

#[test]
fn key_down_after_stop_is_not_delivered() {
    let mut monitor = KeyboardMonitor::new();
    assert!(monitor.start_monitoring().is_ok());
    monitor.stop();
    let decision = decide_tap_event(monitor.is_listening(), RawEvent::KeyDown(49));
    assert_eq!(decision.notification, None);
}

#[test]
fn non_key_events_are_ignored() {
    let decision = decide_tap_event(true, RawEvent::Other);
    assert_eq!(decision.notification, None);
    assert!(!decision.intercept);
}

#[test]
fn tap_never_intercepts() {
    let raws = vec![
        RawEvent::KeyDown(0),
        RawEvent::KeyDown(49),
        RawEvent::KeyDown(999),
        RawEvent::Other,
    ];
    for raw in raws {
        assert!(!decide_tap_event(true, raw).intercept);
        assert!(!decide_tap_event(false, raw).intercept);
    }
}

#[test]
fn error_descriptions_name_the_problem() {
    assert!(MonitorError::PermissionDenied.description().contains("privacy settings"));
    assert_eq!(
        MonitorError::AlreadyRunning.description(),
        "keyboard monitoring is already running"
    );
    assert!(MonitorError::RunLoopSourceCreationFailed.description().contains("run-loop source"));
}

#[test]
fn only_host_failures_are_retryable() {
    assert!(MonitorError::PermissionDenied.is_retryable());
    assert!(MonitorError::RunLoopSourceCreationFailed.is_retryable());
    assert!(!MonitorError::AlreadyRunning.is_retryable());
}

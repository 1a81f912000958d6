//! Whole-session scenarios: injected raw events in order, stop requests in
//! between, and the notifications that come out.

use keytap::keys::Event;
use keytap::keys::EventType;
use keytap::keys::Key;
use keytap::monitor::KeyboardMonitor;
use keytap::monitor::RawEvent;
use keytap::session::SessionInput;
use keytap::session::run_tap_session;

fn started_monitor() -> KeyboardMonitor {
    let mut monitor = KeyboardMonitor::new();
    assert!(monitor.start_monitoring().is_ok());
    monitor
}

#[test]
fn inject_space_scan_code_yields_key_pressed_space() {
    let mut monitor = started_monitor();
    let inputs = vec![SessionInput::Observed(RawEvent::KeyDown(49))];
    let delivered = run_tap_session(&mut monitor, &inputs);
    assert_eq!(delivered, vec![Event { event_type: EventType::KeyPress(Key::Space) }]);
}

#[test]
fn inject_unmapped_scan_code_yields_key_pressed_unknown() {
    let mut monitor = started_monitor();
    let inputs = vec![SessionInput::Observed(RawEvent::KeyDown(999))];
    let delivered = run_tap_session(&mut monitor, &inputs);
    assert_eq!(delivered, vec![Event { event_type: EventType::KeyPress(Key::Unknown(999)) }]);
}

#[test]
fn notifications_come_out_in_input_order() {
    let mut monitor = started_monitor();
    let inputs = vec![
        SessionInput::Observed(RawEvent::KeyDown(0)),
        SessionInput::Observed(RawEvent::Other),
        SessionInput::Observed(RawEvent::KeyDown(49)),
        SessionInput::Observed(RawEvent::KeyDown(36)),
    ];
    let delivered = run_tap_session(&mut monitor, &inputs);
    assert_eq!(
        delivered,
        vec![
            Event { event_type: EventType::KeyPress(Key::KeyA) },
            Event { event_type: EventType::KeyPress(Key::Space) },
            Event { event_type: EventType::KeyPress(Key::Return) },
        ]
    );
    assert!(monitor.is_listening());
}

#[test]
fn no_notification_after_stop_within_the_poll_bound() {
    // A counting test double for the callback: the number of invocations is
    // the number of delivered notifications.
    let mut monitor = started_monitor();
    let before_stop = vec![
        SessionInput::Observed(RawEvent::KeyDown(49)),
        SessionInput::Observed(RawEvent::KeyDown(36)),
    ];
    let count_before = run_tap_session(&mut monitor, &before_stop).len();
    assert_eq!(count_before, 2);

    let stop_then_more = vec![
        SessionInput::StopRequest,
        SessionInput::Observed(RawEvent::KeyDown(49)),
        SessionInput::Observed(RawEvent::KeyDown(12)),
        SessionInput::Observed(RawEvent::KeyDown(36)),
    ];
    let count_after = run_tap_session(&mut monitor, &stop_then_more).len();
    assert_eq!(count_after, 0);
    assert!(!monitor.is_listening());
}

#[test]
fn stop_during_delivery_lets_the_delivery_finish_then_ends_listening() {
    // The stop request lands while a notification is in flight (its
    // callback may sleep); the in-flight delivery completes, the poll
    // after it observes the cleared flag, and nothing later is delivered.
    let mut monitor = started_monitor();
    let inputs = vec![
        SessionInput::Observed(RawEvent::KeyDown(49)),
        SessionInput::StopRequest,
        SessionInput::Observed(RawEvent::KeyDown(12)),
        SessionInput::Observed(RawEvent::KeyDown(13)),
    ];
    let delivered = run_tap_session(&mut monitor, &inputs);
    assert_eq!(delivered, vec![Event { event_type: EventType::KeyPress(Key::Space) }]);
    assert!(!monitor.is_listening());
}

#[test]
fn session_that_never_started_delivers_nothing() {
    let mut monitor = KeyboardMonitor::new();
    let inputs = vec![
        SessionInput::Observed(RawEvent::KeyDown(49)),
        SessionInput::Observed(RawEvent::KeyDown(36)),
    ];
    let delivered = run_tap_session(&mut monitor, &inputs);
    assert!(delivered.is_empty());
}

#[test]
fn empty_session_delivers_nothing_and_keeps_the_flag() {
    let mut monitor = started_monitor();
    let inputs: Vec<SessionInput> = Vec::new();
    let delivered = run_tap_session(&mut monitor, &inputs);
    assert!(delivered.is_empty());
    assert!(monitor.is_listening());
}

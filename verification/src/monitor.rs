//! Lifecycle of a monitoring session and the per-event decision the tap's
//! trampoline makes.
//!
//! `KeyboardMonitor` is the shared listening flag of a session: `start`
//! claims it, `stop` clears it, and the thread that parks in the host's
//! event loop polls it at a bounded interval. The host calls are made by
//! the embedding program; this type decides what they must do.

use vstd::prelude::*;

use crate::errors::MonitorError;
use crate::keys::Event;
use crate::keys::EventType;
use crate::keys::spec_keycode_to_key;
use crate::keys::keycode_to_key;

verus! {

/// A raw input event as the tap's trampoline sees it: a key-down with its
/// scan code, or anything else (key-ups, mouse events), which the capture
/// layer ignores.
#[derive(Debug, Clone, Copy, PartialEq, Eq, Structural)]
pub enum RawEvent {
    KeyDown(u16),
    Other,
}

/// What the trampoline does with one raw event: possibly hand a
/// notification to the registered listener, and say whether to intercept
/// the event. A listen-only tap never intercepts.
#[derive(Debug, Clone, Copy, PartialEq, Eq, Structural)]
pub struct TapDecision {
    pub notification: Option<Event>,
    pub intercept: bool,
}

/// The notification owed for one raw event: key-downs observed while
/// listening are translated and wrapped, everything else yields nothing.
pub open spec fn spec_notification(listening: bool, raw: RawEvent) -> Option<Event> {
    match raw {
        RawEvent::KeyDown(keycode) => if listening {
            Some(Event { event_type: EventType::KeyPress(spec_keycode_to_key(keycode)) })
        } else {
            None
        },
        RawEvent::Other => None,
    }
}

/// Decide what the tap's trampoline does with one raw event.
///
/// Exactly the key-downs observed while listening become notifications,
/// translated by the lookup table; and the decision is always
/// "do not intercept": the tap is strictly an observer.
pub fn decide_tap_event(listening: bool, raw: RawEvent) -> (d: TapDecision)
    ensures
        d.notification == spec_notification(listening, raw),
        !d.intercept,
{
    match raw {
        RawEvent::KeyDown(keycode) => {
            if listening {
                let key = keycode_to_key(keycode);
                TapDecision {
                    notification: Some(Event { event_type: EventType::KeyPress(key) }),
                    intercept: false,
                }
            } else {
                TapDecision { notification: None, intercept: false }
            }
        },
        RawEvent::Other => TapDecision { notification: None, intercept: false },
    }
}

/// Once listening has stopped, no raw event yields a notification.
pub proof fn lemma_no_notification_after_stop(raw: RawEvent)
    ensures
        spec_notification(false, raw) is None,
{
}

/// The result `start_monitoring` owes for a given listening flag: a second
/// start without an intervening stop is refused, any other start succeeds.
pub open spec fn spec_start_result(listening: bool) -> Result<(), MonitorError> {
    if listening {
        Err(MonitorError::AlreadyRunning)
    } else {
        Ok(())
    }
}

/// The listening flag after `start_monitoring`: set on success, unchanged
/// (hence still set) on a refused double start.
pub open spec fn spec_start_next(listening: bool) -> bool {
    true
}

/// Two starts without an intervening stop: the first succeeds, the second
/// is refused with `AlreadyRunning`.
pub proof fn lemma_second_start_rejected(listening: bool)
    requires
        !listening,
    ensures
        spec_start_result(listening) == Ok::<(), MonitorError>(()),
        spec_start_result(spec_start_next(listening)) == Err::<(), MonitorError>(
            MonitorError::AlreadyRunning,
        ),
{
}

/// The listening flag of one monitoring session. Its view is the flag
/// itself: `true` while a session is active.
pub struct KeyboardMonitor {
    listening: bool,
}

impl View for KeyboardMonitor {
    type V = bool;

    closed spec fn view(&self) -> bool {
        self.listening
    }
}

impl KeyboardMonitor {
    /// A fresh monitor; nothing is being listened to yet.
    pub fn new() -> (m: Self)
        ensures
            !m@,
    {
        KeyboardMonitor { listening: false }
    }

    /// Whether a session is active.
    pub fn is_listening(&self) -> (b: bool)
        ensures
            b == self@,
    {
        self.listening
    }

    /// Claim the listening flag for a new session.
    ///
    /// Refused with `AlreadyRunning` if a session is already active, and
    /// nothing changes; otherwise the flag is set and the caller may hand
    /// the monitor to the thread that installs the tap and parks in the
    /// host's event loop.
    pub fn start_monitoring(&mut self) -> (r: Result<(), MonitorError>)
        ensures
            r == spec_start_result(old(self)@),
            final(self)@ == spec_start_next(old(self)@),
    {
        if self.listening {
            Err(MonitorError::AlreadyRunning)
        } else {
            self.listening = true;
            Ok(())
        }
    }

    /// Clear the listening flag. Best effort by design: the monitoring
    /// thread observes the cleared flag within its bounded polling
    /// interval and terminates; this call does not wait for it.
    pub fn stop(&mut self)
        ensures
            !final(self)@,
    {
        self.listening = false;
    }
}

} // verus!

//! The application-event listener variant of the capture layer.
//!
//! Where the tap observes scan codes at the input layer, this listener
//! observes the host's application key events, which carry the typed
//! character when there is one. The host-facing calls (installing and
//! removing the event monitor) are the embedding program's; the lifecycle
//! flag and the event conversion are decided and verified here.

use vstd::prelude::*;

use crate::errors::MonitorError;

verus! {

/// What an application key event carries.
#[derive(Debug, Clone, Copy, PartialEq, Eq, Structural)]
pub enum KeyboardEventType {
    KeyPress(KeyboardKey),
}

/// A key as the application event layer reports it: the typed character
/// when the event carries one, otherwise the raw key code, with `Unknown`
/// for an event carrying neither.
#[derive(Debug, Clone, Copy, PartialEq, Eq, Structural)]
pub enum KeyboardKey {
    Character(char),
    KeyCode(u16),
    Unknown,
}

/// One notification from the application event layer.
#[derive(Debug, Clone, Copy, PartialEq, Eq, Structural)]
pub struct KeyboardEvent {
    pub event_type: KeyboardEventType,
}

/// The notification owed for one application event, given what the host
/// reports of it: key-downs become key presses — by character when the
/// event carries one, by key code otherwise — and every other event kind
/// yields nothing.
pub open spec fn spec_convert_key_event(
    is_key_down: bool,
    first_char: Option<char>,
    key_code: u16,
) -> Option<KeyboardEvent> {
    if is_key_down {
        Some(
            KeyboardEvent {
                event_type: KeyboardEventType::KeyPress(
                    match first_char {
                        Some(c) => KeyboardKey::Character(c),
                        None => KeyboardKey::KeyCode(key_code),
                    },
                ),
            },
        )
    } else {
        None
    }
}

/// The listening flag of one application-event monitoring session. Its
/// view is the flag itself.
pub struct NSEventListener {
    listening: bool,
}

impl View for NSEventListener {
    type V = bool;

    closed spec fn view(&self) -> bool {
        self.listening
    }
}

impl NSEventListener {
    /// A fresh listener; nothing is being listened to yet.
    pub fn new() -> (l: Self)
        ensures
            !l@,
    {
        NSEventListener { listening: false }
    }

    /// Whether a session is active.
    pub fn is_listening(&self) -> (b: bool)
        ensures
            b == self@,
    {
        self.listening
    }

    /// Claim the listening flag for a new session; the caller then
    /// installs the host's event monitor and polls the flag at a bounded
    /// interval. A second listen without an intervening stop is refused
    /// with `AlreadyRunning` and changes nothing.
    pub fn listen(&mut self) -> (r: Result<(), MonitorError>)
        ensures
            old(self)@ ==> r == Err::<(), MonitorError>(MonitorError::AlreadyRunning)
                && final(self)@ == old(self)@,
            !old(self)@ ==> r == Ok::<(), MonitorError>(()) && final(self)@,
    {
        if self.listening {
            Err(MonitorError::AlreadyRunning)
        } else {
            self.listening = true;
            Ok(())
        }
    }

    /// Clear the listening flag; the caller removes its event monitor.
    /// Best effort: the monitoring thread terminates within its bounded
    /// polling interval, and this call does not wait for it.
    pub fn stop(&mut self)
        ensures
            !final(self)@,
    {
        self.listening = false;
    }

    /// Convert what the host reports of one application event into the
    /// notification owed for it, if any.
    pub fn convert_key_event(is_key_down: bool, first_char: Option<char>, key_code: u16) -> (e:
        Option<KeyboardEvent>)
        ensures
            e == spec_convert_key_event(is_key_down, first_char, key_code),
    {
        if is_key_down {
            let key = match first_char {
                Some(c) => KeyboardKey::Character(c),
                None => KeyboardKey::KeyCode(key_code),
            };
            Some(KeyboardEvent { event_type: KeyboardEventType::KeyPress(key) })
        } else {
            None
        }
    }
}

} // verus!

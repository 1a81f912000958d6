//! Symbolic keys and the lookup that turns a platform scan code into one.
//!
//! The lookup is a total, pure function: every scan code in the static
//! table yields its symbolic key, every other code yields `Unknown(code)`.
//! There is no failure path.

use vstd::prelude::*;

verus! {

/// A portable symbolic key. `Unknown(code)` is the deliberate fallback for
/// any scan code outside the lookup table; it is a valid result, not an
/// error.
#[derive(Debug, Clone, Copy, PartialEq, Eq, Structural)]
pub enum Key {
    Alt,
    AltGr,
    Backspace,
    CapsLock,
    ControlLeft,
    ControlRight,
    Delete,
    DownArrow,
    End,
    Escape,
    F1, F2, F3, F4, F5, F6, F7, F8, F9, F10, F11, F12,
    Home,
    LeftArrow,
    MetaLeft,
    MetaRight,
    PageDown,
    PageUp,
    Return,
    RightArrow,
    ShiftLeft,
    ShiftRight,
    Space,
    Tab,
    UpArrow,
    PrintScreen,
    ScrollLock,
    Pause,
    NumLock,
    BackQuote,
    Num1, Num2, Num3, Num4, Num5, Num6, Num7, Num8, Num9, Num0,
    Minus,
    Equal,
    KeyQ, KeyW, KeyE, KeyR, KeyT, KeyY, KeyU, KeyI, KeyO, KeyP,
    LeftBracket,
    RightBracket,
    KeyA, KeyS, KeyD, KeyF, KeyG, KeyH, KeyJ, KeyK, KeyL,
    SemiColon,
    Quote,
    BackSlash,
    IntlBackslash,
    KeyZ, KeyX, KeyC, KeyV, KeyB, KeyN, KeyM,
    Comma,
    Dot,
    Slash,
    Insert,
    KpReturn,
    KpMinus,
    KpPlus,
    KpMultiply,
    KpDivide,
    Kp0, Kp1, Kp2, Kp3, Kp4, Kp5, Kp6, Kp7, Kp8, Kp9,
    KpDelete,
    Function,
    Unknown(u32),
}

/// What a key-down event carries.
#[derive(Debug, Clone, Copy, PartialEq, Eq, Structural)]
pub enum EventType {
    KeyPress(Key),
}

/// One notification, created once per physical key-down and delivered at
/// most once.
#[derive(Debug, Clone, Copy, PartialEq, Eq, Structural)]
pub struct Event {
    pub event_type: EventType,
}

/// The static lookup table: the symbolic key a scan code stands for, with
/// `Unknown(code)` for every code the table does not cover.
pub open spec fn spec_keycode_to_key(keycode: u16) -> Key {
    match keycode {
        36u16 => Key::Return,
        53u16 => Key::Escape,
        48u16 => Key::Tab,
        49u16 => Key::Space,
        51u16 => Key::Backspace,
        117u16 => Key::Delete,
        123u16 => Key::LeftArrow,
        124u16 => Key::RightArrow,
        125u16 => Key::DownArrow,
        126u16 => Key::UpArrow,
        18u16 => Key::Num1,
        19u16 => Key::Num2,
        20u16 => Key::Num3,
        21u16 => Key::Num4,
        23u16 => Key::Num5,
        22u16 => Key::Num6,
        26u16 => Key::Num7,
        28u16 => Key::Num8,
        25u16 => Key::Num9,
        29u16 => Key::Num0,
        12u16 => Key::KeyQ,
        13u16 => Key::KeyW,
        14u16 => Key::KeyE,
        15u16 => Key::KeyR,
        17u16 => Key::KeyT,
        16u16 => Key::KeyY,
        32u16 => Key::KeyU,
        34u16 => Key::KeyI,
        31u16 => Key::KeyO,
        35u16 => Key::KeyP,
        0u16 => Key::KeyA,
        1u16 => Key::KeyS,
        2u16 => Key::KeyD,
        3u16 => Key::KeyF,
        5u16 => Key::KeyG,
        4u16 => Key::KeyH,
        38u16 => Key::KeyJ,
        40u16 => Key::KeyK,
        37u16 => Key::KeyL,
        6u16 => Key::KeyZ,
        7u16 => Key::KeyX,
        8u16 => Key::KeyC,
        9u16 => Key::KeyV,
        11u16 => Key::KeyB,
        45u16 => Key::KeyN,
        46u16 => Key::KeyM,
        _ => Key::Unknown(keycode as u32),
    }
}

/// Whether a scan code is covered by the lookup table.
pub open spec fn keycode_mapped(keycode: u16) -> bool {
    !(spec_keycode_to_key(keycode) matches Key::Unknown(_))
}

/// Translate a platform scan code to its symbolic key.
///
/// Total and deterministic: the result is exactly the table entry, and any
/// code outside the table yields `Unknown(keycode)`.
pub fn keycode_to_key(keycode: u16) -> (key: Key)
    ensures
        key == spec_keycode_to_key(keycode),
{
    match keycode {
        36 => Key::Return,
        53 => Key::Escape,
        48 => Key::Tab,
        49 => Key::Space,
        51 => Key::Backspace,
        117 => Key::Delete,
        123 => Key::LeftArrow,
        124 => Key::RightArrow,
        125 => Key::DownArrow,
        126 => Key::UpArrow,
        18 => Key::Num1,
        19 => Key::Num2,
        20 => Key::Num3,
        21 => Key::Num4,
        23 => Key::Num5,
        22 => Key::Num6,
        26 => Key::Num7,
        28 => Key::Num8,
        25 => Key::Num9,
        29 => Key::Num0,
        12 => Key::KeyQ,
        13 => Key::KeyW,
        14 => Key::KeyE,
        15 => Key::KeyR,
        17 => Key::KeyT,
        16 => Key::KeyY,
        32 => Key::KeyU,
        34 => Key::KeyI,
        31 => Key::KeyO,
        35 => Key::KeyP,
        0 => Key::KeyA,
        1 => Key::KeyS,
        2 => Key::KeyD,
        3 => Key::KeyF,
        5 => Key::KeyG,
        4 => Key::KeyH,
        38 => Key::KeyJ,
        40 => Key::KeyK,
        37 => Key::KeyL,
        6 => Key::KeyZ,
        7 => Key::KeyX,
        8 => Key::KeyC,
        9 => Key::KeyV,
        11 => Key::KeyB,
        45 => Key::KeyN,
        46 => Key::KeyM,
        _ => Key::Unknown(keycode as u32),
    }
}

/// Translation is a function of the scan code alone: two translations of
/// the same code agree, whenever they happen.
pub proof fn lemma_translate_deterministic(a: u16, b: u16)
    requires
        a == b,
    ensures
        spec_keycode_to_key(a) == spec_keycode_to_key(b),
{
}

/// Every scan code outside the table maps to `Unknown` of exactly that
/// code; translation never fails.
pub proof fn lemma_unmapped_is_unknown(keycode: u16)
    requires
        !keycode_mapped(keycode),
    ensures
        spec_keycode_to_key(keycode) == Key::Unknown(keycode as u32),
{
}

/// A translated `Unknown` always carries the code it came from, so no
/// information is lost on the fallback path.
pub proof fn lemma_unknown_carries_code(keycode: u16)
    ensures
        spec_keycode_to_key(keycode) matches Key::Unknown(c) ==> c == keycode as u32,
{
}

} // verus!

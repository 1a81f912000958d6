//! Scan-code translation: totality, determinism, exact table entries, and
//! the `Unknown` fallback.

use keytap::keys::Key;
use keytap::keys::keycode_to_key;

#[test]
fn translate_is_deterministic_for_mapped_codes() {
    let codes: Vec<u16> = vec![36, 53, 48, 49, 51, 117, 123, 124, 125, 126, 0, 12, 46];
    for code in codes {
        let first = keycode_to_key(code);
        let second = keycode_to_key(code);
        assert_eq!(first, second);
    }
}

#[test]
fn translate_is_deterministic_for_unmapped_codes() {
    let codes: Vec<u16> = vec![10, 50, 127, 999, u16::MAX];
    for code in codes {
        let first = keycode_to_key(code);
        let second = keycode_to_key(code);
        assert_eq!(first, second);
        assert_eq!(first, Key::Unknown(code as u32));
    }
}

#[test]
fn translate_whitespace_and_control_rows() {
    assert_eq!(keycode_to_key(36), Key::Return);
    assert_eq!(keycode_to_key(53), Key::Escape);
    assert_eq!(keycode_to_key(48), Key::Tab);
    assert_eq!(keycode_to_key(49), Key::Space);
    assert_eq!(keycode_to_key(51), Key::Backspace);
    assert_eq!(keycode_to_key(117), Key::Delete);
}

#[test]
fn translate_arrow_rows() {
    assert_eq!(keycode_to_key(123), Key::LeftArrow);
    assert_eq!(keycode_to_key(124), Key::RightArrow);
    assert_eq!(keycode_to_key(125), Key::DownArrow);
    assert_eq!(keycode_to_key(126), Key::UpArrow);
}

#[test]
fn translate_digit_rows() {
    assert_eq!(keycode_to_key(18), Key::Num1);
    assert_eq!(keycode_to_key(19), Key::Num2);
    assert_eq!(keycode_to_key(20), Key::Num3);
    assert_eq!(keycode_to_key(21), Key::Num4);
    assert_eq!(keycode_to_key(23), Key::Num5);
    assert_eq!(keycode_to_key(22), Key::Num6);
    assert_eq!(keycode_to_key(26), Key::Num7);
    assert_eq!(keycode_to_key(28), Key::Num8);
    assert_eq!(keycode_to_key(25), Key::Num9);
    assert_eq!(keycode_to_key(29), Key::Num0);
}

#[test]
fn translate_letter_rows() {
    assert_eq!(keycode_to_key(12), Key::KeyQ);
    assert_eq!(keycode_to_key(13), Key::KeyW);
    assert_eq!(keycode_to_key(14), Key::KeyE);
    assert_eq!(keycode_to_key(15), Key::KeyR);
    assert_eq!(keycode_to_key(17), Key::KeyT);
    assert_eq!(keycode_to_key(16), Key::KeyY);
    assert_eq!(keycode_to_key(32), Key::KeyU);
    assert_eq!(keycode_to_key(34), Key::KeyI);
    assert_eq!(keycode_to_key(31), Key::KeyO);
    assert_eq!(keycode_to_key(35), Key::KeyP);
    assert_eq!(keycode_to_key(0), Key::KeyA);
    assert_eq!(keycode_to_key(1), Key::KeyS);
    assert_eq!(keycode_to_key(2), Key::KeyD);
    assert_eq!(keycode_to_key(3), Key::KeyF);
    assert_eq!(keycode_to_key(5), Key::KeyG);
    assert_eq!(keycode_to_key(4), Key::KeyH);
    assert_eq!(keycode_to_key(38), Key::KeyJ);
    assert_eq!(keycode_to_key(40), Key::KeyK);
    assert_eq!(keycode_to_key(37), Key::KeyL);
    assert_eq!(keycode_to_key(6), Key::KeyZ);
    assert_eq!(keycode_to_key(7), Key::KeyX);
    assert_eq!(keycode_to_key(8), Key::KeyC);
    assert_eq!(keycode_to_key(9), Key::KeyV);
    assert_eq!(keycode_to_key(11), Key::KeyB);
    assert_eq!(keycode_to_key(45), Key::KeyN);
    assert_eq!(keycode_to_key(46), Key::KeyM);
}

#[test]
fn unmapped_code_keeps_its_value() {
    assert_eq!(keycode_to_key(999), Key::Unknown(999));
    assert_eq!(keycode_to_key(10), Key::Unknown(10));
    assert_eq!(keycode_to_key(118), Key::Unknown(118));
    assert_eq!(keycode_to_key(u16::MAX), Key::Unknown(u16::MAX as u32));
}

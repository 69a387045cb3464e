use deskbridge::keymap::{
    linux_key_to_protocol_scancode, scancode_to_linux_key, wheel_steps, KEY_DOWN, KEY_LEFT,
    KEY_LEFTMETA, KEY_RIGHT, KEY_RIGHTMETA, KEY_UP,
};

#[test]
fn maps_common_windows_extended_keys() {
    assert_eq!(scancode_to_linux_key(328), Some(KEY_UP));
    assert_eq!(scancode_to_linux_key(331), Some(KEY_LEFT));
    assert_eq!(scancode_to_linux_key(333), Some(KEY_RIGHT));
    assert_eq!(scancode_to_linux_key(336), Some(KEY_DOWN));
    assert_eq!(scancode_to_linux_key(347), Some(KEY_LEFTMETA));
}

#[test]
fn converts_wheel_pixels_to_detents() {
    assert_eq!(wheel_steps(0), 0);
    assert_eq!(wheel_steps(1), 1);
    assert_eq!(wheel_steps(120), 1);
    assert_eq!(wheel_steps(240), 2);
    assert_eq!(wheel_steps(-120), -1);
}

#[test]
fn maps_linux_extended_keys_to_protocol_scancodes() {
    assert_eq!(linux_key_to_protocol_scancode(KEY_UP), Some(328));
    assert_eq!(linux_key_to_protocol_scancode(KEY_LEFT), Some(331));
    assert_eq!(linux_key_to_protocol_scancode(KEY_RIGHT), Some(333));
    assert_eq!(linux_key_to_protocol_scancode(KEY_DOWN), Some(336));
    assert_eq!(linux_key_to_protocol_scancode(KEY_LEFTMETA), Some(347));
}

#[test]
fn linux_keys_round_trip_through_the_scancode_table() {
    for code in 1u16..=255 {
        if code == KEY_RIGHTMETA {
            continue;
        }
        if let Some(scancode) = linux_key_to_protocol_scancode(code) {
            assert_eq!(scancode_to_linux_key(scancode), Some(code), "code {code}");
        }
    }
    assert_eq!(linux_key_to_protocol_scancode(KEY_RIGHTMETA), Some(348));
    assert_eq!(scancode_to_linux_key(348), Some(92));
}

#[test]
fn wheel_steps_round_away_from_zero() {
    assert_eq!(wheel_steps(121), 2);
    assert_eq!(wheel_steps(-1), -1);
    assert_eq!(wheel_steps(i16::MIN), -274);
    assert_eq!(wheel_steps(i16::MAX), 274);
}

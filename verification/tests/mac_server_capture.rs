use deskbridge::config::ModifierTarget;
use deskbridge::keyboard::{key_event, ModifierMapping};
use deskbridge::mac_capture::{decode_tap, MacCapture, TapCommand, TapEvent};
use deskbridge::protocol::{InputEvent, KeyState, MouseButton};
use deskbridge::server::Edge;

fn capture() -> MacCapture {
    MacCapture::new(
        Edge::Right,
        (1000, 800),
        (1200, 900),
        ModifierMapping::new(ModifierTarget::Meta, ModifierTarget::Control, ModifierTarget::Alt),
    )
}

fn moved(dx: i32, dy: i32, x: i32, y: i32) -> TapEvent {
    TapEvent::MouseMoved { dx, dy, x, y, flags: 0 }
}

#[test]
fn raw_tap_events_are_read_by_kind() {
    assert_eq!(decode_tap(1, 0, 3, -4, 0x10_0000, 7, 8), TapEvent::MouseMoved { dx: 3, dy: -4, x: 7, y: 8, flags: 0x10_0000 });
    assert_eq!(decode_tap(6, 3, 0, 0, 0, 0, 0), TapEvent::MouseButton { button: MouseButton::Extra(4), down: true });
    assert_eq!(decode_tap(20, 100_000, -3, 0, 0, 0, 0), TapEvent::Scroll { horizontal: i16::MAX, vertical: -3 });
    assert_eq!(decode_tap(21, 0, 1, 0, 0, 0, 0), TapEvent::KeyDown { keycode: 0, repeat: true });
    assert_eq!(decode_tap(23, 55, 0, 0x10_0000, 0, 0, 0), TapEvent::FlagsChanged { keycode: 55, flags: 0x10_0000 });
    assert_eq!(decode_tap(99, 0, 0, 0, 0, 0, 0), TapEvent::Other);
}

#[test]
fn entering_pins_the_cursor_and_syncs_modifiers() {
    let mut c = capture();
    let out = c.handle_tap(moved(5, 0, 500, 400), (1000, 800));
    assert!(!out.consumed);
    let out = c.handle_tap(TapEvent::MouseMoved { dx: 5, dy: 0, x: 999, y: 400, flags: 0x10_0000 }, (1000, 800));
    assert!(out.consumed);
    assert_eq!(out.events, vec![InputEvent::MouseEnter { x: 0, y: 450 }, key_event(347, KeyState::Down)]);
    assert_eq!(out.commands, vec![TapCommand::SetCursor { x: 999, y: 400 }]);
    assert!(c.is_remote());
    let still = c.handle_tap(moved(0, 0, 999, 400), (1000, 800));
    assert!(still.consumed && still.events.is_empty());
    assert_eq!(still.commands, vec![TapCommand::SetCursor { x: 999, y: 400 }]);
    let step = c.handle_tap(moved(20, 5, 999, 400), (1000, 800));
    assert_eq!(step.events, vec![InputEvent::MouseDelta { dx: 20, dy: 5 }]);
}

#[test]
fn pushing_home_returns_and_releases_everything() {
    let mut c = capture();
    c.handle_tap(moved(5, 0, 999, 400), (1000, 800));
    let key = c.handle_tap(TapEvent::KeyDown { keycode: 0, repeat: false }, (1000, 800));
    assert_eq!(key.events, vec![key_event(30, KeyState::Down)]);
    let button = c.handle_tap(TapEvent::MouseButton { button: MouseButton::Left, down: true }, (1000, 800));
    assert_eq!(button.events, vec![InputEvent::MouseButton { button: MouseButton::Left, down: true }]);
    let held = c.handle_tap(moved(-20, 0, 999, 400), (1000, 800));
    assert_eq!(held.events, vec![InputEvent::MouseDelta { dx: -20, dy: 0 }]);
    c.handle_tap(TapEvent::MouseButton { button: MouseButton::Left, down: false }, (1000, 800));
    let back = c.handle_tap(moved(-20, 0, 999, 400), (1000, 800));
    assert!(back.consumed);
    assert_eq!(back.events, vec![key_event(30, KeyState::Up)]);
    assert_eq!(back.commands, vec![TapCommand::RestoreCursorAssociation, TapCommand::SetCursor { x: 991, y: 400 }]);
    assert!(!c.is_remote());
}

#[test]
fn restoring_to_local_lets_go_of_held_buttons() {
    let mut c = capture();
    c.handle_tap(moved(5, 0, 999, 400), (1000, 800));
    c.handle_tap(TapEvent::MouseButton { button: MouseButton::Right, down: true }, (1000, 800));
    let (events, commands) = c.restore_to_local();
    assert_eq!(events, vec![InputEvent::MouseButton { button: MouseButton::Right, down: false }]);
    assert_eq!(commands, vec![TapCommand::RestoreCursorAssociation, TapCommand::SetCursor { x: 991, y: 400 }]);
    let (events, commands) = c.restore_to_local();
    assert!(events.is_empty());
    assert_eq!(commands, vec![TapCommand::RestoreCursorAssociation]);
}

#[test]
fn local_input_is_left_to_macos() {
    let mut c = capture();
    let key = c.handle_tap(TapEvent::KeyDown { keycode: 0, repeat: false }, (1000, 800));
    assert!(!key.consumed && key.events.is_empty());
    let scroll = c.handle_tap(TapEvent::Scroll { horizontal: 1, vertical: 2 }, (1000, 800));
    assert!(!scroll.consumed);
    c.handle_tap(TapEvent::MouseButton { button: MouseButton::Left, down: true }, (1000, 800));
    let blocked = c.handle_tap(moved(5, 0, 999, 400), (1000, 800));
    assert!(!blocked.consumed);
}

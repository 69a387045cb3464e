use deskbridge::protocol::{InputEvent, KeyState, MouseButton};
use deskbridge::win_sink::{
    button_input, key_input, KeyInput, MouseFlag, WinAction, WinSink, XBUTTON1_DATA,
    XBUTTON2_DATA,
};

#[test]
fn keys_go_out_by_virtual_key_or_scancode() {
    assert_eq!(key_input(347, false), KeyInput::Virtual { vk: 0x5B, extended: true, key_up: false });
    assert_eq!(key_input(348, true), KeyInput::Virtual { vk: 0x5C, extended: true, key_up: true });
    assert_eq!(key_input(30, false), KeyInput::Virtual { vk: 0x41, extended: false, key_up: false });
    assert_eq!(key_input(57, true), KeyInput::Virtual { vk: 0x20, extended: false, key_up: true });
    assert_eq!(key_input(328, false), KeyInput::Scan { scan: 72, extended: true, key_up: false });
    assert_eq!(key_input(59, true), KeyInput::Scan { scan: 59, extended: false, key_up: true });
}

#[test]
fn buttons_have_their_flags_and_data() {
    assert_eq!(button_input(MouseButton::Left, true), (MouseFlag::LeftDown, 0));
    assert_eq!(button_input(MouseButton::Right, false), (MouseFlag::RightUp, 0));
    assert_eq!(button_input(MouseButton::Middle, true), (MouseFlag::MiddleDown, 0));
    assert_eq!(button_input(MouseButton::Extra(5), true), (MouseFlag::XDown, XBUTTON2_DATA));
    assert_eq!(button_input(MouseButton::Extra(4), false), (MouseFlag::XUp, XBUTTON1_DATA));
}

#[test]
fn nothing_is_sent_before_the_pointer_enters() {
    let mut sink = WinSink::new((1920, 1080), Some((5000, -5)));
    assert_eq!(sink.screen_size(), (1920, 1080));
    assert!(sink.apply(InputEvent::Key { scancode: 30, state: KeyState::Down }).is_empty());
    assert!(sink.apply(InputEvent::MouseDelta { dx: 1, dy: 1 }).is_empty());
    let zero = WinSink::new((0, 0), None);
    assert_eq!(zero.screen_size(), (1, 1));
}

#[test]
fn motion_is_held_on_the_screen() {
    let mut sink = WinSink::new((1920, 1080), None);
    assert_eq!(sink.mouse_enter(10, 20, (1920, 1080)), vec![WinAction::SetCursor { x: 10, y: 20 }]);
    assert_eq!(
        sink.apply(InputEvent::MouseDelta { dx: -20, dy: 5 }),
        vec![WinAction::Mouse { flag: MouseFlag::Move, dx: -10, dy: 5, data: 0 }]
    );
    assert!(sink.apply(InputEvent::MouseDelta { dx: -5, dy: 0 }).is_empty());
    assert_eq!(sink.mouse_enter(5000, 5000, (800, 600)), vec![WinAction::SetCursor { x: 799, y: 599 }]);
    assert_eq!(sink.screen_size(), (800, 600));
}

#[test]
fn keys_buttons_and_wheel_are_sent_and_let_go() {
    let mut sink = WinSink::new((1920, 1080), None);
    sink.mouse_enter(0, 0, (1920, 1080));
    assert_eq!(
        sink.apply(InputEvent::Key { scancode: 30, state: KeyState::Down }),
        vec![WinAction::Key(KeyInput::Virtual { vk: 0x41, extended: false, key_up: false })]
    );
    assert!(sink.apply(InputEvent::Key { scancode: 30, state: KeyState::Down }).is_empty());
    assert_eq!(
        sink.apply(InputEvent::Key { scancode: 30, state: KeyState::Repeat }),
        vec![WinAction::Key(KeyInput::Virtual { vk: 0x41, extended: false, key_up: false })]
    );
    sink.apply(InputEvent::Key { scancode: 347, state: KeyState::Down });
    let press = InputEvent::MouseButton { button: MouseButton::Extra(5), down: true };
    assert_eq!(
        sink.apply(press),
        vec![WinAction::Mouse { flag: MouseFlag::XDown, dx: 0, dy: 0, data: 2 }]
    );
    sink.button_sent(MouseButton::Extra(5), true);
    assert_eq!(
        sink.apply(InputEvent::MouseWheel { horizontal: -120, vertical: 240 }),
        vec![
            WinAction::Mouse { flag: MouseFlag::Wheel, dx: 0, dy: 0, data: 240 },
            WinAction::Mouse { flag: MouseFlag::HWheel, dx: 0, dy: 0, data: 4294967176 },
        ]
    );
    let mut released = sink.release_all();
    released.sort_by_key(|a| format!("{:?}", a));
    assert_eq!(
        released,
        vec![
            WinAction::Key(KeyInput::Virtual { vk: 0x41, extended: false, key_up: true }),
            WinAction::Key(KeyInput::Virtual { vk: 0x5B, extended: true, key_up: true }),
            WinAction::Mouse { flag: MouseFlag::XUp, dx: 0, dy: 0, data: 2 },
        ]
    );
    assert!(sink.release_all().is_empty());
}

#[test]
fn entering_again_lets_go_first() {
    let mut sink = WinSink::new((100, 100), None);
    sink.mouse_enter(0, 0, (100, 100));
    sink.apply(InputEvent::Key { scancode: 59, state: KeyState::Down });
    assert_eq!(
        sink.mouse_enter(1, 1, (100, 100)),
        vec![
            WinAction::Key(KeyInput::Scan { scan: 59, extended: false, key_up: true }),
            WinAction::SetCursor { x: 1, y: 1 },
        ]
    );
}

#[test]
fn a_key_pressed_and_let_go_leaves_nothing_held() {
    let mut sink = WinSink::new((1920, 1080), None);
    sink.mouse_enter(0, 0, (1920, 1080));
    assert_eq!(
        sink.apply(InputEvent::Key { scancode: 57, state: KeyState::Down }),
        vec![WinAction::Key(key_input(57, false))]
    );
    assert_eq!(
        sink.apply(InputEvent::Key { scancode: 57, state: KeyState::Up }),
        vec![WinAction::Key(key_input(57, true))]
    );
    assert!(sink.release_all().is_empty());
}

use deskbridge::linux_sink::{LinuxSink, UinputAction};
use deskbridge::protocol::{InputEvent, KeyState, MouseButton};

#[test]
fn nothing_is_applied_before_the_pointer_enters() {
    let mut sink = LinuxSink::new((1920, 1080));
    assert_eq!(sink.screen_size(), (1920, 1080));
    assert!(sink.apply(InputEvent::MouseDelta { dx: 5, dy: 5 }).is_empty());
    assert!(sink.apply(InputEvent::Key { scancode: 30, state: KeyState::Down }).is_empty());
}

#[test]
fn entering_moves_to_a_point_held_on_the_screen() {
    let mut sink = LinuxSink::new((1920, 1080));
    assert_eq!(sink.mouse_enter(5000, -3), vec![UinputAction::MoveAbs { x: 1919, y: 0 }]);
    assert_eq!(
        sink.apply(InputEvent::MouseDelta { dx: -20, dy: 7 }),
        vec![UinputAction::MoveRel { dx: -20, dy: 7 }]
    );
}

#[test]
fn keys_are_pressed_once_and_let_go_on_leave() {
    let mut sink = LinuxSink::new((800, 600));
    sink.mouse_enter(10, 10);
    assert_eq!(
        sink.apply(InputEvent::Key { scancode: 30, state: KeyState::Down }),
        vec![UinputAction::Key { keycode: 30, value: 1 }]
    );
    assert!(sink.apply(InputEvent::Key { scancode: 30, state: KeyState::Down }).is_empty());
    assert_eq!(
        sink.apply(InputEvent::Key { scancode: 30, state: KeyState::Repeat }),
        vec![UinputAction::Key { keycode: 30, value: 2 }]
    );
    assert_eq!(
        sink.apply(InputEvent::Key { scancode: 328, state: KeyState::Down }),
        vec![UinputAction::Key { keycode: 103, value: 1 }]
    );
    assert!(sink.apply(InputEvent::Key { scancode: 600, state: KeyState::Down }).is_empty());
    assert_eq!(
        sink.apply(InputEvent::MouseButton { button: MouseButton::Right, down: true }),
        vec![UinputAction::Button { button: MouseButton::Right, down: true }]
    );
    let mut released = sink.mouse_leave();
    released.sort_by_key(|a| format!("{:?}", a));
    assert_eq!(
        released,
        vec![
            UinputAction::Button { button: MouseButton::Right, down: false },
            UinputAction::Key { keycode: 103, value: 0 },
            UinputAction::Key { keycode: 30, value: 0 },
        ]
    );
    assert!(sink.apply(InputEvent::Key { scancode: 30, state: KeyState::Up }).is_empty());
}

#[test]
fn the_wheel_is_sent_in_detents() {
    let mut sink = LinuxSink::new((800, 600));
    sink.mouse_enter(0, 0);
    assert_eq!(
        sink.apply(InputEvent::MouseWheel { horizontal: -30, vertical: 240 }),
        vec![UinputAction::Scroll { horizontal: -1, vertical: 2 }]
    );
}

#[test]
fn entering_again_lets_go_of_what_was_held() {
    let mut sink = LinuxSink::new((800, 600));
    sink.mouse_enter(0, 0);
    sink.apply(InputEvent::Key { scancode: 42, state: KeyState::Down });
    assert_eq!(
        sink.mouse_enter(1, 2),
        vec![UinputAction::Key { keycode: 42, value: 0 }, UinputAction::MoveAbs { x: 1, y: 2 }]
    );
    assert!(sink.release_all().is_empty());
}

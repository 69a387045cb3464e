use deskbridge::protocol::{InputEvent, KeyState, MouseButton, Frame, FrameKind, hello_payload_with_screen, hello_payload, ProtocolError};
use deskbridge::server::Edge;
use deskbridge::win_capture::{
    normalized_scancode, remote_size_from_hello, wheel_pixels, xbutton, CaptureState,
    CursorCommand, InputCoalescer, KeyMessage, MouseMessage,
};

#[test]
fn crossing_the_edge_hands_control_over() {
    let mut state = CaptureState::new(Edge::Right, (1920, 1080), (1440, 900));
    let far = state.handle_mouse(MouseMessage::Move, 0, false, (100, 540), (1920, 1080));
    assert!(!far.swallow);
    let out = state.handle_mouse(MouseMessage::Move, 0, false, (1915, 540), (1920, 1080));
    assert!(out.swallow);
    assert_eq!(out.events, vec![InputEvent::MouseEnter { x: 0, y: 450 }]);
    assert_eq!(out.cursor, CursorCommand::Lock { x: 960, y: 540 });
    assert!(state.is_active());
    let held = state.handle_mouse(MouseMessage::Move, 0, false, (1000, 500), (1920, 1080));
    assert_eq!(held.cursor, CursorCommand::Lock { x: 960, y: 540 });
    let injected = state.handle_mouse(MouseMessage::Move, 0, true, (960, 540), (1920, 1080));
    assert_eq!(injected.cursor, CursorCommand::Keep);
    assert_eq!(state.handle_raw_mouse_delta(3, -4), vec![InputEvent::MouseDelta { dx: 3, dy: -4 }]);
}

#[test]
fn left_button_held_blocks_the_transfer() {
    let mut state = CaptureState::new(Edge::Left, (1920, 1080), (1440, 900));
    state.handle_mouse(MouseMessage::LeftDown, 0, false, (3, 3), (1920, 1080));
    let out = state.handle_mouse(MouseMessage::Move, 0, false, (2, 100), (1920, 1080));
    assert!(!out.swallow);
    assert!(!state.is_active());
    state.handle_mouse(MouseMessage::LeftUp, 0, false, (3, 3), (1920, 1080));
    let out = state.handle_mouse(MouseMessage::Move, 0, false, (2, 1080), (1920, 1080));
    assert_eq!(out.events, vec![InputEvent::MouseEnter { x: 1439, y: 899 }]);
}

#[test]
fn keys_are_forwarded_and_scroll_lock_takes_control_back() {
    let mut state = CaptureState::new(Edge::Right, (1000, 800), (1000, 800));
    let idle = state.handle_keyboard(KeyMessage::KeyDown, false, false, 30, false);
    assert!(!idle.swallow);
    state.handle_mouse(MouseMessage::Move, 0, false, (999, 10), (1000, 800));
    let down = state.handle_keyboard(KeyMessage::KeyDown, false, false, 30, false);
    assert_eq!(down.events, vec![InputEvent::Key { scancode: 30, state: KeyState::Down }]);
    let again = state.handle_keyboard(KeyMessage::SysKeyDown, false, false, 30, false);
    assert_eq!(again.events, vec![InputEvent::Key { scancode: 30, state: KeyState::Repeat }]);
    let ext = state.handle_keyboard(KeyMessage::KeyDown, false, false, 0x48, true);
    assert_eq!(ext.events, vec![InputEvent::Key { scancode: 328, state: KeyState::Down }]);
    let other = state.handle_keyboard(KeyMessage::Other, false, false, 30, false);
    assert!(other.swallow && other.events.is_empty());
    let release = state.handle_keyboard(KeyMessage::KeyDown, false, true, 70, false);
    assert!(release.swallow);
    let mut ups = release.events.clone();
    ups.sort_by_key(|e| match e { InputEvent::Key { scancode, .. } => *scancode, _ => 0 });
    assert_eq!(ups, vec![
        InputEvent::Key { scancode: 30, state: KeyState::Up },
        InputEvent::Key { scancode: 328, state: KeyState::Up },
    ]);
    assert_eq!(release.cursor, CursorCommand::Release { x: 998, y: 400 });
    assert!(!state.is_active());
}

#[test]
fn buttons_and_wheels_are_sent_while_active() {
    let mut state = CaptureState::new(Edge::Right, (1000, 800), (1000, 800));
    state.handle_mouse(MouseMessage::Move, 0, false, (999, 10), (1000, 800));
    let out = state.handle_mouse(MouseMessage::XDown, 2 << 16, false, (0, 0), (1000, 800));
    assert_eq!(out.events, vec![InputEvent::MouseButton { button: MouseButton::Extra(5), down: true }]);
    let wheel = state.handle_mouse(MouseMessage::Wheel, (0xff88u32) << 16, false, (0, 0), (1000, 800));
    assert_eq!(wheel.events, vec![InputEvent::MouseWheel { horizontal: 0, vertical: -240 }]);
    assert_eq!(wheel_pixels(200 << 16), 400);
    assert_eq!(wheel_pixels(30000 << 16), i16::MAX);
    assert_eq!(xbutton(1 << 16), MouseButton::Extra(4));
    assert_eq!(xbutton(7 << 16), MouseButton::Extra(7));
    assert_eq!(normalized_scancode(0x1d, true), 0x11d);
}

#[test]
fn writer_gathers_wheel_and_writes_motion_at_once() {
    let mut queue = InputCoalescer::new();
    assert!(queue.push(InputEvent::MouseWheel { horizontal: 0, vertical: 120 }).is_empty());
    assert!(queue.push(InputEvent::MouseWheel { horizontal: 0, vertical: 120 }).is_empty());
    assert_eq!(
        queue.push(InputEvent::MouseDelta { dx: 1, dy: 0 }),
        vec![InputEvent::MouseDelta { dx: 1, dy: 0 }, InputEvent::MouseWheel { horizontal: 0, vertical: 240 }]
    );
    let key = InputEvent::Key { scancode: 30, state: KeyState::Down };
    assert_eq!(queue.push(key), vec![key]);
    for _ in 0..300 {
        queue.push(InputEvent::MouseWheel { horizontal: 0, vertical: 120 });
    }
    assert_eq!(queue.flush_pending(), vec![InputEvent::MouseWheel { horizontal: 0, vertical: i16::MAX }]);
    assert!(queue.flush_pending().is_empty());
    assert!(queue.wheel_fits(1, 1));
}

#[test]
fn remote_size_comes_from_the_client_hello() {
    assert_eq!(remote_size_from_hello(&Frame::new(FrameKind::Hello, hello_payload_with_screen(2560, 0))), Ok((2560, 1)));
    assert_eq!(remote_size_from_hello(&Frame::new(FrameKind::Hello, hello_payload())), Ok((1366, 768)));
    assert_eq!(remote_size_from_hello(&Frame::new(FrameKind::Input, vec![])), Ok((1366, 768)));
    assert_eq!(remote_size_from_hello(&Frame::new(FrameKind::Hello, vec![1])), Err(ProtocolError::ShortHello));
    assert_eq!(remote_size_from_hello(&Frame::new(FrameKind::Hello, hello_payload_with_screen(u32::MAX, 5))), Ok((1, 5)));
}

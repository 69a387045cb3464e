use deskbridge::batch::{PendingBatch, INPUT_BATCH_LIMIT};
use deskbridge::client::{
    check_server_hello, client_action, clipboard_summary, input_flush_ms, is_batched,
    ordered_events, ClientAction, HandshakeError, CLIENT_INPUT_FLUSH_MS, SERVER_INPUT_FLUSH_MS,
};
use deskbridge::motion::PendingInput;
use deskbridge::protocol::{
    encode_clipboard, encode_file_start, encode_input, hello_payload_with_screen,
    ClipboardPayload, Frame, FrameKind, Hello, InputEvent, KeyState, MouseButton, ProtocolError,
};

#[test]
fn server_hello_is_checked() {
    let hello = Frame::new(FrameKind::Hello, hello_payload_with_screen(2560, 1440));
    assert_eq!(
        check_server_hello(&hello).unwrap(),
        Hello { version: 1, screen_width: Some(2560), screen_height: Some(1440) }
    );
    let not_hello = Frame::new(FrameKind::Input, vec![]);
    assert_eq!(check_server_hello(&not_hello).unwrap_err(), HandshakeError::NotHello);
    let short = Frame::new(FrameKind::Hello, vec![0]);
    assert_eq!(
        check_server_hello(&short).unwrap_err(),
        HandshakeError::Protocol(ProtocolError::ShortHello)
    );
}

#[test]
fn frames_become_client_actions() {
    let key = InputEvent::Key { scancode: 30, state: KeyState::Down };
    match client_action(Frame::new(FrameKind::Input, encode_input(&key))).unwrap() {
        ClientAction::ApplyInput(e) => assert_eq!(e, key),
        _ => panic!("expected input"),
    }
    let text = ClipboardPayload::Text("hi".to_string());
    match client_action(Frame::new(FrameKind::Clipboard, encode_clipboard(&text))).unwrap() {
        ClientAction::WriteClipboard(p) => assert_eq!(p, text),
        _ => panic!("expected clipboard"),
    }
    match client_action(Frame::new(FrameKind::FileStart, encode_file_start("a/b.txt", 12)))
        .unwrap()
    {
        ClientAction::StartFile(path, len) => {
            assert_eq!(path, "a/b.txt");
            assert_eq!(len, 12);
        }
        _ => panic!("expected file start"),
    }
    match client_action(Frame::new(FrameKind::FileChunk, vec![1, 2, 3])).unwrap() {
        ClientAction::FileChunk(b) => assert_eq!(b, vec![1, 2, 3]),
        _ => panic!("expected chunk"),
    }
    assert!(matches!(
        client_action(Frame::new(FrameKind::DragEnd, vec![])).unwrap(),
        ClientAction::FinishFiles
    ));
    assert!(matches!(
        client_action(Frame::new(FrameKind::FileEnd, vec![])).unwrap(),
        ClientAction::Ignore
    ));
    assert!(matches!(
        client_action(Frame::new(FrameKind::Input, vec![])),
        Err(ProtocolError::ShortInputEvent)
    ));
    assert!(matches!(
        client_action(Frame::new(FrameKind::Input, vec![9])),
        Err(ProtocolError::UnknownInputKind)
    ));
}

#[test]
fn motion_and_wheel_are_batched() {
    assert!(is_batched(&InputEvent::MouseDelta { dx: 1, dy: 0 }));
    assert!(is_batched(&InputEvent::MouseWheel { horizontal: 0, vertical: 120 }));
    assert!(!is_batched(&InputEvent::MouseEnter { x: 0, y: 0 }));
    assert!(!is_batched(&InputEvent::Key { scancode: 1, state: KeyState::Up }));
}

#[test]
fn an_entry_goes_before_the_pending_batch_and_other_events_after() {
    let mut pending = PendingInput::new();
    pending.queue(InputEvent::MouseDelta { dx: 3, dy: -2 });
    let enter = InputEvent::MouseEnter { x: 10, y: 20 };
    assert_eq!(
        ordered_events(enter, &mut pending),
        vec![enter, InputEvent::MouseDelta { dx: 3, dy: -2 }]
    );
    assert_eq!(pending, PendingInput::new());

    pending.queue(InputEvent::MouseWheel { horizontal: 0, vertical: 120 });
    let click = InputEvent::MouseButton { button: MouseButton::Left, down: true };
    assert_eq!(
        ordered_events(click, &mut pending),
        vec![InputEvent::MouseWheel { horizontal: 0, vertical: 120 }, click]
    );
    assert_eq!(ordered_events(click, &mut pending), vec![click]);
}

#[test]
fn flush_interval_reads_an_override_and_is_held_between_bounds() {
    assert_eq!(CLIENT_INPUT_FLUSH_MS, 2);
    assert_eq!(SERVER_INPUT_FLUSH_MS, 2);
    assert_eq!(input_flush_ms(None, CLIENT_INPUT_FLUSH_MS), 2);
    assert_eq!(input_flush_ms(Some("8"), CLIENT_INPUT_FLUSH_MS), 8);
    assert_eq!(input_flush_ms(Some("0"), CLIENT_INPUT_FLUSH_MS), 1);
    assert_eq!(input_flush_ms(Some("100"), CLIENT_INPUT_FLUSH_MS), 16);
    assert_eq!(input_flush_ms(Some("fast"), SERVER_INPUT_FLUSH_MS), 2);
    assert_eq!(input_flush_ms(None, 40), 16);
}

#[test]
fn clipboard_summary_counts_what_the_payload_holds() {
    assert_eq!(clipboard_summary(&ClipboardPayload::Text("héllo".to_string())), (1, 5));
    assert_eq!(clipboard_summary(&ClipboardPayload::Bitmap(vec![0; 7])), (2, 7));
    assert_eq!(
        clipboard_summary(&ClipboardPayload::Files(vec!["/a".to_string(), "/b".to_string()])),
        (3, 2)
    );
}

#[test]
fn a_batch_waits_its_interval() {
    assert_eq!(INPUT_BATCH_LIMIT, 64);
    let mut batch = PendingBatch::new();
    assert!(!batch.ready(100, 4));
    assert_eq!(batch.wait_ms(100, 4), None);
    batch.queue(InputEvent::MouseDelta { dx: 1, dy: 1 }, 100);
    batch.queue(InputEvent::MouseDelta { dx: 2, dy: 3 }, 102);
    assert_eq!(batch.since_ms, Some(100));
    assert!(!batch.ready(102, 4));
    assert_eq!(batch.wait_ms(102, 4), Some(2));
    assert!(batch.ready(104, 4));
    assert_eq!(batch.wait_ms(110, 4), Some(0));
    assert_eq!(batch.wait_ms(90, 4), Some(4));
    assert_eq!(batch.flush(), vec![InputEvent::MouseDelta { dx: 3, dy: 4 }]);
    assert_eq!(batch.since_ms, None);
    assert_eq!(batch.flush(), Vec::<InputEvent>::new());
}

#[test]
fn pending_input_saturates_and_clamps_the_wheel() {
    let mut pending = PendingInput::new();
    pending.queue(InputEvent::MouseDelta { dx: i32::MAX, dy: 0 });
    pending.queue(InputEvent::MouseDelta { dx: 5, dy: 0 });
    pending.queue(InputEvent::MouseWheel { horizontal: 0, vertical: i16::MAX });
    pending.queue(InputEvent::MouseWheel { horizontal: 0, vertical: 10 });
    pending.queue(InputEvent::Key { scancode: 1, state: KeyState::Down });
    assert_eq!(
        pending.take_events(),
        vec![
            InputEvent::MouseDelta { dx: i32::MAX, dy: 0 },
            InputEvent::MouseWheel { horizontal: 0, vertical: i16::MAX },
        ]
    );
    pending.queue(InputEvent::MouseDelta { dx: 4, dy: 0 });
    pending.queue(InputEvent::MouseDelta { dx: -4, dy: 0 });
    assert_eq!(pending.take_events(), Vec::<InputEvent>::new());
}

#[test]
fn any_sequence_flushes_as_its_sums() {
    let mut pending = PendingInput::new();
    pending.queue(InputEvent::MouseDelta { dx: 3, dy: -1 });
    pending.queue(InputEvent::MouseWheel { horizontal: 2, vertical: -1 });
    pending.queue(InputEvent::Key { scancode: 30, state: KeyState::Down });
    pending.queue(InputEvent::MouseDelta { dx: -1, dy: -1 });
    pending.queue(InputEvent::MouseWheel { horizontal: 1, vertical: 0 });
    assert_eq!(
        pending.take_events(),
        vec![
            InputEvent::MouseDelta { dx: 2, dy: -2 },
            InputEvent::MouseWheel { horizontal: 3, vertical: -1 },
        ]
    );
    assert!(pending.take_events().is_empty());
}

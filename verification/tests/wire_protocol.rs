use deskbridge::protocol::{
    decode_clipboard, decode_file_start, decode_hello, decode_input, encode_clipboard,
    encode_file_start, encode_input, hello_payload, hello_payload_with_screen, read_frame,
    write_frame, ClipboardPayload, Frame, FrameKind, Hello, InputEvent, KeyState, MouseButton,
    ProtocolError, VERSION,
};

#[test]
fn frames_are_kind_length_and_payload() {
    let mut out = Vec::new();
    write_frame(&mut out, &Frame::new(FrameKind::Input, vec![7, 8, 9]));
    assert_eq!(out, vec![2, 0, 0, 0, 0, 0, 0, 0, 3, 7, 8, 9]);
    let (frame, used) = read_frame(&out).unwrap();
    assert_eq!(frame.kind, FrameKind::Input);
    assert_eq!(frame.payload, vec![7, 8, 9]);
    assert_eq!(used, 12);
}

#[test]
fn reading_a_frame_reports_each_error() {
    assert_eq!(read_frame(&[2, 0, 0]).unwrap_err(), ProtocolError::UnexpectedEof);
    assert_eq!(
        read_frame(&[2, 0, 0, 0, 0, 0, 0, 0, 5, 1]).unwrap_err(),
        ProtocolError::UnexpectedEof
    );
    assert_eq!(
        read_frame(&[99, 0, 0, 0, 0, 0, 0, 0, 0]).unwrap_err(),
        ProtocolError::UnknownFrameKind
    );
    let mut two = Vec::new();
    write_frame(&mut two, &Frame::new(FrameKind::Hello, vec![0, 1]));
    write_frame(&mut two, &Frame::new(FrameKind::DragEnd, vec![]));
    let (first, used) = read_frame(&two).unwrap();
    assert_eq!(first.kind, FrameKind::Hello);
    let (second, _) = read_frame(&two[used..]).unwrap();
    assert_eq!(second.kind, FrameKind::DragEnd);
}

#[test]
fn frame_kinds_round_trip_their_bytes() {
    for byte in 1u8..=10 {
        assert_eq!(FrameKind::from_byte(byte).unwrap().as_byte(), byte);
    }
    assert_eq!(FrameKind::from_byte(0).unwrap_err(), ProtocolError::UnknownFrameKind);
    assert_eq!(FrameKind::from_byte(11).unwrap_err(), ProtocolError::UnknownFrameKind);
}

#[test]
fn hello_carries_version_and_optional_screen() {
    assert_eq!(VERSION, 1);
    assert_eq!(hello_payload(), vec![0, 1]);
    assert_eq!(
        hello_payload_with_screen(1920, 1080),
        vec![0, 1, 0, 0, 7, 128, 0, 0, 4, 56]
    );
    assert_eq!(
        decode_hello(&hello_payload_with_screen(1920, 1080)).unwrap(),
        Hello { version: 1, screen_width: Some(1920), screen_height: Some(1080) }
    );
    assert_eq!(
        decode_hello(&[0, 1, 5]).unwrap(),
        Hello { version: 1, screen_width: None, screen_height: None }
    );
    assert_eq!(decode_hello(&[0]).unwrap_err(), ProtocolError::ShortHello);
}

#[test]
fn input_events_have_fixed_encodings() {
    assert_eq!(
        encode_input(&InputEvent::Key { scancode: 0x0148, state: KeyState::Repeat }),
        vec![1, 1, 0x48, 3]
    );
    assert_eq!(
        encode_input(&InputEvent::MouseEnter { x: -1, y: 2 }),
        vec![2, 255, 255, 255, 255, 0, 0, 0, 2]
    );
    assert_eq!(
        encode_input(&InputEvent::MouseButton { button: MouseButton::Right, down: true }),
        vec![3, 3, 1]
    );
    assert_eq!(
        encode_input(&InputEvent::MouseWheel { horizontal: -120, vertical: 240 }),
        vec![4, 0xff, 0x88, 0, 240]
    );
    assert_eq!(
        encode_input(&InputEvent::MouseDelta { dx: 1, dy: -2 }),
        vec![5, 0, 0, 0, 1, 255, 255, 255, 254]
    );
}

#[test]
fn input_events_round_trip() {
    let events = [
        InputEvent::Key { scancode: 347, state: KeyState::Down },
        InputEvent::Key { scancode: 30, state: KeyState::Up },
        InputEvent::MouseEnter { x: i32::MIN, y: i32::MAX },
        InputEvent::MouseDelta { dx: -5, dy: 7 },
        InputEvent::MouseButton { button: MouseButton::Left, down: true },
        InputEvent::MouseButton { button: MouseButton::Middle, down: false },
        InputEvent::MouseButton { button: MouseButton::Extra(4), down: true },
        InputEvent::MouseWheel { horizontal: i16::MIN, vertical: i16::MAX },
    ];
    for event in events {
        assert_eq!(decode_input(&encode_input(&event)).unwrap(), event);
    }
}

#[test]
fn decoding_input_reports_each_error() {
    assert_eq!(decode_input(&[]).unwrap_err(), ProtocolError::ShortInputEvent);
    assert_eq!(decode_input(&[1, 0, 1]).unwrap_err(), ProtocolError::InvalidKeyEvent);
    assert_eq!(decode_input(&[1, 0, 1, 9]).unwrap_err(), ProtocolError::InvalidKeyState);
    assert_eq!(decode_input(&[2, 0]).unwrap_err(), ProtocolError::InvalidMouseEnter);
    assert_eq!(decode_input(&[3, 1]).unwrap_err(), ProtocolError::InvalidMouseButton);
    assert_eq!(decode_input(&[4, 1]).unwrap_err(), ProtocolError::InvalidWheel);
    assert_eq!(decode_input(&[5, 1]).unwrap_err(), ProtocolError::InvalidMouseDelta);
    assert_eq!(decode_input(&[6]).unwrap_err(), ProtocolError::UnknownInputKind);
    assert_eq!(
        decode_input(&[3, 200, 7]).unwrap(),
        InputEvent::MouseButton { button: MouseButton::Extra(200), down: true }
    );
}

#[test]
fn clipboard_payloads_round_trip() {
    let payloads = [
        ClipboardPayload::Text("héllo".to_string()),
        ClipboardPayload::Bitmap(vec![0x89, 0x50, 1, 2]),
        ClipboardPayload::Files(vec!["/tmp/a b.txt".to_string(), "/home/x/ü".to_string()]),
        ClipboardPayload::Files(vec![]),
    ];
    for payload in payloads {
        assert_eq!(decode_clipboard(&encode_clipboard(&payload)).unwrap(), payload);
    }
    assert_eq!(
        encode_clipboard(&ClipboardPayload::Text("hi".to_string())),
        vec![1, 0, 0, 0, 2, b'h', b'i']
    );
    assert_eq!(
        encode_clipboard(&ClipboardPayload::Files(vec!["a".to_string()])),
        vec![3, 0, 0, 0, 1, 0, 0, 0, 1, b'a']
    );
}

#[test]
fn decoding_clipboard_reports_each_error() {
    assert_eq!(decode_clipboard(&[]).unwrap_err(), ProtocolError::ShortClipboard);
    assert_eq!(decode_clipboard(&[4]).unwrap_err(), ProtocolError::UnknownClipboardKind);
    assert_eq!(decode_clipboard(&[1, 0, 0, 0, 9, b'a']).unwrap_err(), ProtocolError::TruncatedBytes);
    assert_eq!(decode_clipboard(&[9]).unwrap_err(), ProtocolError::UnknownClipboardKind);
    assert_eq!(decode_clipboard(&[1, 0, 0]).unwrap_err(), ProtocolError::ShortU32);
    assert_eq!(decode_clipboard(&[2, 0, 0, 0, 3, 1]).unwrap_err(), ProtocolError::TruncatedBytes);
    assert_eq!(decode_clipboard(&[1, 0, 0, 0, 1, 0xff]).unwrap_err(), ProtocolError::InvalidUtf8);
    assert_eq!(decode_clipboard(&[3, 0, 0, 0, 2, 0, 0, 0, 0]).unwrap_err(), ProtocolError::ShortU32);
}

#[test]
fn file_start_round_trips_and_reports_errors() {
    let encoded = encode_file_start("dir/file.txt", 1234);
    assert_eq!(decode_file_start(&encoded).unwrap(), ("dir/file.txt".to_string(), 1234));
    assert_eq!(
        encode_file_start("a", 2),
        vec![0, 0, 0, 1, b'a', 0, 0, 0, 0, 0, 0, 0, 2]
    );
    assert_eq!(decode_file_start(&[0, 0, 0, 1, b'a', 0]).unwrap_err(), ProtocolError::ShortFileStart);
    assert_eq!(decode_file_start(&[0, 0]).unwrap_err(), ProtocolError::ShortU32);
    assert_eq!(decode_file_start(&[0, 0, 0, 1, 0xc3]).unwrap_err(), ProtocolError::InvalidUtf8);
}

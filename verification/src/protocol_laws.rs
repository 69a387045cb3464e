use vstd::prelude::*;
use vstd::utf8::{decode_utf8, valid_utf8};

use crate::protocol::{
    button_byte, kind_byte, len32, spec_decode_clipboard, spec_decode_file_start,
    spec_decode_hello, spec_decode_input, spec_encode_clipboard, spec_encode_file_start,
    spec_encode_files, spec_encode_input, spec_frame_bytes, spec_hello_payload,
    spec_hello_payload_with_screen, spec_read_bytes, spec_read_files, spec_read_frame,
    spec_read_string, spec_read_u32, spec_write_bytes, ClipboardModel, Hello, InputEvent,
    MouseButton, ProtocolError, VERSION, kind_from_byte, FrameKind,
};
use crate::text::{lemma_utf8_roundtrip, utf8};
use crate::wire::{
    be16, be32, be64, lemma_be16_read, lemma_be32_read, lemma_be64_read, lemma_i16_bits_roundtrip,
    lemma_i32_bits_roundtrip, read_be16, read_be32, read_be64,
};

verus! {

/// Whether an input event survives encoding: a mouse button given by a raw
/// number 1, 2 or 3 comes back as the named left, middle or right button.
pub open spec fn input_event_has_unique_encoding(event: InputEvent) -> bool {
    match event {
        InputEvent::MouseButton { button: MouseButton::Extra(id), .. } => !(1 <= id <= 3),
        _ => true,
    }
}

/// Decoding an encoded input event gives the event back (for every event
/// whose encoding is not shared with a named mouse button).
pub proof fn law_input_roundtrip(event: InputEvent)
    requires
        input_event_has_unique_encoding(event),
    ensures
        spec_decode_input(spec_encode_input(event)) == Ok::<InputEvent, ProtocolError>(event),
{
    let p = spec_encode_input(event);
    match event {
        InputEvent::Key { scancode, state } => {
            assert(p.subrange(1, 3) =~= be16(scancode));
            lemma_be16_read(p, 1, scancode);
        },
        InputEvent::MouseEnter { x, y } => {
            assert(p.subrange(1, 5) =~= be32(crate::wire::i32_bits(x)));
            assert(p.subrange(5, 9) =~= be32(crate::wire::i32_bits(y)));
            lemma_be32_read(p, 1, crate::wire::i32_bits(x));
            lemma_be32_read(p, 5, crate::wire::i32_bits(y));
            lemma_i32_bits_roundtrip(x);
            lemma_i32_bits_roundtrip(y);
        },
        InputEvent::MouseDelta { dx, dy } => {
            assert(p.subrange(1, 5) =~= be32(crate::wire::i32_bits(dx)));
            assert(p.subrange(5, 9) =~= be32(crate::wire::i32_bits(dy)));
            lemma_be32_read(p, 1, crate::wire::i32_bits(dx));
            lemma_be32_read(p, 5, crate::wire::i32_bits(dy));
            lemma_i32_bits_roundtrip(dx);
            lemma_i32_bits_roundtrip(dy);
        },
        InputEvent::MouseButton { button, down } => {
        },
        InputEvent::MouseWheel { horizontal, vertical } => {
            assert(p.subrange(1, 3) =~= be16(crate::wire::i16_bits(horizontal)));
            assert(p.subrange(3, 5) =~= be16(crate::wire::i16_bits(vertical)));
            lemma_be16_read(p, 1, crate::wire::i16_bits(horizontal));
            lemma_be16_read(p, 3, crate::wire::i16_bits(vertical));
            lemma_i16_bits_roundtrip(horizontal);
            lemma_i16_bits_roundtrip(vertical);
        },
    }
}

/// The hello payloads decode to the version and, when sent, the screen size.
pub proof fn law_hello_roundtrip(width: u32, height: u32)
    ensures
        spec_decode_hello(spec_hello_payload()) == Ok::<Hello, ProtocolError>(
            Hello { version: VERSION, screen_width: None, screen_height: None },
        ),
        spec_decode_hello(spec_hello_payload_with_screen(width, height)) == Ok::<
            Hello,
            ProtocolError,
        >(Hello { version: VERSION, screen_width: Some(width), screen_height: Some(height) }),
{
    let p = spec_hello_payload();
    assert(p.subrange(0, 2) =~= be16(VERSION));
    lemma_be16_read(p, 0, VERSION);
    let q = spec_hello_payload_with_screen(width, height);
    assert(q.subrange(0, 2) =~= be16(VERSION));
    assert(q.subrange(2, 6) =~= be32(width));
    assert(q.subrange(6, 10) =~= be32(height));
    lemma_be16_read(q, 0, VERSION);
    lemma_be32_read(q, 2, width);
    lemma_be32_read(q, 6, height);
}

/// Reading a written frame, whatever follows it, gives the frame back and
/// takes exactly its bytes.
pub proof fn law_frame_roundtrip(
    kind: crate::protocol::FrameKind,
    payload: Seq<u8>,
    rest: Seq<u8>,
)
    requires
        payload.len() <= u64::MAX,
    ensures
        spec_read_frame(spec_frame_bytes(kind, payload) + rest) == Ok::<
            (crate::protocol::FrameKind, Seq<u8>, int),
            ProtocolError,
        >((kind, payload, 9 + payload.len() as int)),
{
    let b = spec_frame_bytes(kind, payload) + rest;
    assert(b.subrange(1, 9) =~= be64(payload.len() as u64));
    lemma_be64_read(b, 1, payload.len() as u64);
    assert(b.subrange(9, 9 + payload.len() as int) =~= payload);
    assert(b[0] == kind_byte(kind));
    assert(kind_from_byte(kind_byte(kind)) == Some(kind));
}

/// Reading a length-prefixed byte string that was written at `at`.
proof fn lemma_read_written_bytes(before: Seq<u8>, b: Seq<u8>, after: Seq<u8>)
    requires
        b.len() < 0x1_0000_0000,
    ensures
        spec_read_bytes(before + spec_write_bytes(b) + after, before.len() as int) == Ok::<
            (Seq<u8>, int),
            ProtocolError,
        >((b, (before.len() + 4 + b.len()) as int)),
{
    let p = before + spec_write_bytes(b) + after;
    let at = before.len() as int;
    assert(len32(b.len()) == b.len());
    assert(p.subrange(at, at + 4) =~= be32(len32(b.len())));
    lemma_be32_read(p, at, len32(b.len()));
    assert(p.subrange(at + 4, at + 4 + b.len()) =~= b);
}

proof fn lemma_read_written_string(before: Seq<u8>, s: Seq<char>, after: Seq<u8>)
    requires
        utf8(s).len() < 0x1_0000_0000,
    ensures
        spec_read_string(before + spec_write_bytes(utf8(s)) + after, before.len() as int) == Ok::<
            (Seq<char>, int),
            ProtocolError,
        >((s, (before.len() + 4 + utf8(s).len()) as int)),
{
    lemma_read_written_bytes(before, utf8(s), after);
    lemma_utf8_roundtrip(s);
}

/// Whether every path fits a 32-bit length field.
pub open spec fn paths_fit(files: Seq<Seq<char>>) -> bool {
    forall|i: int| 0 <= i < files.len() ==> #[trigger] utf8(files[i]).len() < 0x1_0000_0000
}

proof fn lemma_read_written_files(before: Seq<u8>, files: Seq<Seq<char>>, after: Seq<u8>)
    requires
        paths_fit(files),
    ensures
        spec_read_files(
            before + spec_encode_files(files) + after,
            before.len() as int,
            files.len(),
        ) == Ok::<(Seq<Seq<char>>, int), ProtocolError>(
            (files, (before.len() + spec_encode_files(files).len()) as int),
        ),
    decreases files.len(),
{
    if files.len() == 0 {
        assert(files =~= seq![]);
    } else {
        let head = spec_write_bytes(utf8(files[0]));
        let tail = files.drop_first();
        assert(utf8(files[0]).len() < 0x1_0000_0000);
        assert(before + spec_encode_files(files) + after =~= before + head + (spec_encode_files(
            tail,
        ) + after));
        lemma_read_written_string(before, files[0], spec_encode_files(tail) + after);
        assert(before + head + spec_encode_files(tail) + after =~= before + spec_encode_files(
            files,
        ) + after);
        assert(paths_fit(tail)) by {
            assert forall|i: int| 0 <= i < tail.len() implies #[trigger] utf8(tail[i]).len()
                < 0x1_0000_0000 by {
                assert(tail[i] == files[i + 1]);
            }
        }
        lemma_read_written_files(before + head, tail, after);
        assert(seq![files[0]] + tail =~= files);
    }
}

/// Whether a clipboard value fits the 32-bit length fields of its encoding.
pub open spec fn clipboard_fits(m: ClipboardModel) -> bool {
    match m {
        ClipboardModel::Text(t) => utf8(t).len() < 0x1_0000_0000,
        ClipboardModel::Bitmap(b) => b.len() < 0x1_0000_0000,
        ClipboardModel::Files(f) => f.len() < 0x1_0000_0000 && paths_fit(f),
    }
}

/// Decoding encoded clipboard contents gives them back, when every length
/// fits its 32-bit field.
pub proof fn law_clipboard_roundtrip(m: ClipboardModel)
    requires
        clipboard_fits(m),
    ensures
        spec_decode_clipboard(spec_encode_clipboard(m)) == Ok::<ClipboardModel, ProtocolError>(m),
{
    let p = spec_encode_clipboard(m);
    match m {
        ClipboardModel::Text(t) => {
            assert(p =~= seq![1u8] + spec_write_bytes(utf8(t)) + seq![]);
            lemma_read_written_string(seq![1u8], t, seq![]);
        },
        ClipboardModel::Bitmap(b) => {
            assert(p =~= seq![2u8] + spec_write_bytes(b) + seq![]);
            lemma_read_written_bytes(seq![2u8], b, seq![]);
        },
        ClipboardModel::Files(f) => {
            assert(len32(f.len()) == f.len());
            assert(p.subrange(1, 5) =~= be32(len32(f.len())));
            lemma_be32_read(p, 1, len32(f.len()));
            let before = seq![3u8] + be32(len32(f.len()));
            assert(p =~= before + spec_encode_files(f) + seq![]);
            lemma_read_written_files(before, f, seq![]);
        },
    }
}

/// Decoding an encoded file announcement gives the path and length back.
pub proof fn law_file_start_roundtrip(relative: Seq<char>, len: u64)
    requires
        utf8(relative).len() < 0x1_0000_0000,
    ensures
        spec_decode_file_start(spec_encode_file_start(relative, len)) == Ok::<
            (Seq<char>, u64),
            ProtocolError,
        >((relative, len)),
{
    let p = spec_encode_file_start(relative, len);
    assert(p =~= seq![] + spec_write_bytes(utf8(relative)) + be64(len));
    lemma_read_written_string(seq![], relative, be64(len));
    let next = 4 + utf8(relative).len() as int;
    assert(p.subrange(next, next + 8) =~= be64(len));
    lemma_be64_read(p, next, len);
}

/// What the decoders refuse: a frame cut short before its header or its
/// payload ends, a complete frame whose kind byte is not one of 1 to 10, an
/// empty clipboard payload or one of an unknown kind, clipboard text whose
/// length prefix runs past the payload or whose bytes are not UTF-8, and a
/// file announcement too short for its name and length or whose name is not
/// UTF-8.
pub proof fn law_decoders_refuse(bytes: Seq<u8>)
    ensures
        bytes.len() < 9 ==> spec_read_frame(bytes) == Err::<(FrameKind, Seq<u8>, int), ProtocolError>(
            ProtocolError::UnexpectedEof,
        ),
        bytes.len() >= 9 && bytes.len() - 9 < read_be64(bytes, 1) ==> spec_read_frame(bytes) == Err::<
            (FrameKind, Seq<u8>, int),
            ProtocolError,
        >(ProtocolError::UnexpectedEof),
        bytes.len() >= 9 && bytes.len() - 9 >= read_be64(bytes, 1) && !(1 <= bytes[0] <= 10) ==> spec_read_frame(
            bytes,
        ) == Err::<(FrameKind, Seq<u8>, int), ProtocolError>(ProtocolError::UnknownFrameKind),
        spec_decode_clipboard(Seq::<u8>::empty()) is Err,
        bytes.len() > 0 && !(1 <= bytes[0] <= 3) ==> spec_decode_clipboard(bytes) is Err,
        bytes.len() >= 5 && bytes[0] == 1 && bytes.len() < 5 + read_be32(bytes, 1) ==> spec_decode_clipboard(
            bytes,
        ) is Err,
        bytes.len() >= 5 && bytes[0] == 1 && bytes.len() >= 5 + read_be32(bytes, 1) && !valid_utf8(
            bytes.subrange(5, 5 + read_be32(bytes, 1)),
        ) ==> spec_decode_clipboard(bytes) is Err,
        bytes.len() < 4 ==> spec_decode_file_start(bytes) is Err,
        bytes.len() >= 4 && bytes.len() < 4 + read_be32(bytes, 0) + 8 ==> spec_decode_file_start(bytes) is Err,
        bytes.len() >= 4 + read_be32(bytes, 0) && !valid_utf8(bytes.subrange(4, 4 + read_be32(bytes, 0)))
            ==> spec_decode_file_start(bytes) is Err,
{
}

} // verus!

use vstd::prelude::*;
use vstd::utf8::{decode_utf8, valid_utf8};

use crate::text::{string_from_utf8, utf8};
use crate::wire::{
    be16, be32, be64, bits_i16, bits_i32, get_be16, get_be32, get_be64, i16_bits, i32_bits, push_be16,
    push_be32, push_be64, push_bytes, read_be16, read_be32, read_be64, from_bits_i16, from_bits_i32,
    to_bits_i16, to_bits_i32,
};

verus! {

/// Protocol version announced in the hello frame.
pub const VERSION: u16 = 1;

/// Size of the chunks a file is sent in.
pub const CHUNK_SIZE: usize = 65536;

/// The kind of a frame on the wire.
#[derive(Debug, Clone, Copy, PartialEq, Eq, Structural)]
pub enum FrameKind {
    Hello,
    Input,
    Clipboard,
    FileStart,
    FileChunk,
    FileEnd,
    DragStart,
    DragUpdate,
    DragEnd,
    Error,
}

/// Errors found while decoding the wire format.
#[derive(Debug, Clone, Copy, PartialEq, Eq, Structural)]
pub enum ProtocolError {
    /// The buffer ends before the frame does.
    UnexpectedEof,
    UnknownFrameKind,
    ShortHello,
    ShortInputEvent,
    InvalidKeyEvent,
    InvalidKeyState,
    InvalidMouseEnter,
    InvalidMouseButton,
    InvalidWheel,
    InvalidMouseDelta,
    UnknownInputKind,
    ShortClipboard,
    UnknownClipboardKind,
    InvalidUtf8,
    ShortFileStart,
    ShortU32,
    TruncatedBytes,
}

pub open spec fn kind_byte(kind: FrameKind) -> u8 {
    match kind {
        FrameKind::Hello => 1,
        FrameKind::Input => 2,
        FrameKind::Clipboard => 3,
        FrameKind::FileStart => 4,
        FrameKind::FileChunk => 5,
        FrameKind::FileEnd => 6,
        FrameKind::DragStart => 7,
        FrameKind::DragUpdate => 8,
        FrameKind::DragEnd => 9,
        FrameKind::Error => 10,
    }
}

pub open spec fn kind_from_byte(byte: u8) -> Option<FrameKind> {
    if byte == 1 {
        Some(FrameKind::Hello)
    } else if byte == 2 {
        Some(FrameKind::Input)
    } else if byte == 3 {
        Some(FrameKind::Clipboard)
    } else if byte == 4 {
        Some(FrameKind::FileStart)
    } else if byte == 5 {
        Some(FrameKind::FileChunk)
    } else if byte == 6 {
        Some(FrameKind::FileEnd)
    } else if byte == 7 {
        Some(FrameKind::DragStart)
    } else if byte == 8 {
        Some(FrameKind::DragUpdate)
    } else if byte == 9 {
        Some(FrameKind::DragEnd)
    } else if byte == 10 {
        Some(FrameKind::Error)
    } else {
        None
    }
}

impl FrameKind {
    /// The byte that stands for this kind on the wire.
    pub fn as_byte(self) -> (r: u8)
        ensures
            r == kind_byte(self),
    {
        match self {
            FrameKind::Hello => 1,
            FrameKind::Input => 2,
            FrameKind::Clipboard => 3,
            FrameKind::FileStart => 4,
            FrameKind::FileChunk => 5,
            FrameKind::FileEnd => 6,
            FrameKind::DragStart => 7,
            FrameKind::DragUpdate => 8,
            FrameKind::DragEnd => 9,
            FrameKind::Error => 10,
        }
    }

    /// The kind that `byte` stands for; an unknown byte is an error.
    pub fn from_byte(byte: u8) -> (r: Result<FrameKind, ProtocolError>)
        ensures
            r == (match kind_from_byte(byte) {
                Some(kind) => Ok(kind),
                None => Err(ProtocolError::UnknownFrameKind),
            }),
    {
        match byte {
            1 => Ok(FrameKind::Hello),
            2 => Ok(FrameKind::Input),
            3 => Ok(FrameKind::Clipboard),
            4 => Ok(FrameKind::FileStart),
            5 => Ok(FrameKind::FileChunk),
            6 => Ok(FrameKind::FileEnd),
            7 => Ok(FrameKind::DragStart),
            8 => Ok(FrameKind::DragUpdate),
            9 => Ok(FrameKind::DragEnd),
            10 => Ok(FrameKind::Error),
            _ => Err(ProtocolError::UnknownFrameKind),
        }
    }
}

/// One frame: a kind and its payload.
#[derive(Debug, Clone)]
pub struct Frame {
    pub kind: FrameKind,
    pub payload: Vec<u8>,
}

impl Frame {
    pub fn new(kind: FrameKind, payload: Vec<u8>) -> (r: Frame)
        ensures
            r.kind == kind,
            r.payload@ == payload@,
    {
        Frame { kind, payload }
    }
}

/// The bytes of a frame on the wire: kind byte, 64-bit big-endian length, payload.
pub open spec fn spec_frame_bytes(kind: FrameKind, payload: Seq<u8>) -> Seq<u8> {
    seq![kind_byte(kind)] + be64(payload.len() as u64) + payload
}

/// What reading one frame from the front of `bytes` gives: the kind, the
/// payload and the number of bytes taken.
pub open spec fn spec_read_frame(bytes: Seq<u8>) -> Result<(FrameKind, Seq<u8>, int), ProtocolError> {
    if bytes.len() < 9 {
        Err(ProtocolError::UnexpectedEof)
    } else {
        let len = read_be64(bytes, 1) as int;
        if bytes.len() - 9 < len {
            Err(ProtocolError::UnexpectedEof)
        } else {
            match kind_from_byte(bytes[0]) {
                Some(kind) => Ok((kind, bytes.subrange(9, 9 + len), 9 + len)),
                None => Err(ProtocolError::UnknownFrameKind),
            }
        }
    }
}

/// Reads one frame from the front of `bytes`; returns it with the number of
/// bytes it took.
pub fn read_frame(bytes: &[u8]) -> (r: Result<(Frame, usize), ProtocolError>)
    ensures
        match (r, spec_read_frame(bytes@)) {
            (Ok((frame, n)), Ok((kind, payload, m))) => frame.kind == kind && frame.payload@
                == payload && n == m,
            (Err(e), Err(f)) => e == f,
            _ => false,
        },
{
    if bytes.len() < 9 {
        return Err(ProtocolError::UnexpectedEof);
    }
    let len = get_be64(bytes, 1);
    if ((bytes.len() - 9) as u64) < len {
        return Err(ProtocolError::UnexpectedEof);
    }
    let end = 9 + len as usize;
    let payload = vstd::slice::slice_to_vec(vstd::slice::slice_subrange(bytes, 9, end));
    let kind = FrameKind::from_byte(bytes[0])?;
    Ok((Frame::new(kind, payload), end))
}

/// Appends the wire bytes of `frame` to `out`.
pub fn write_frame(out: &mut Vec<u8>, frame: &Frame)
    ensures
        final(out)@ == old(out)@ + spec_frame_bytes(frame.kind, frame.payload@),
{
    out.push(frame.kind.as_byte());
    push_be64(out, frame.payload.len() as u64);
    push_bytes(out, frame.payload.as_slice());
    assert(out@ =~= old(out)@ + spec_frame_bytes(frame.kind, frame.payload@));
}

/// The greeting a peer sends first.
#[derive(Debug, Clone, Copy, PartialEq, Eq, Structural)]
pub struct Hello {
    pub version: u16,
    pub screen_width: Option<u32>,
    pub screen_height: Option<u32>,
}

pub open spec fn spec_hello_payload() -> Seq<u8> {
    be16(VERSION)
}

pub open spec fn spec_hello_payload_with_screen(width: u32, height: u32) -> Seq<u8> {
    be16(VERSION) + be32(width) + be32(height)
}

pub open spec fn spec_decode_hello(p: Seq<u8>) -> Result<Hello, ProtocolError> {
    if p.len() < 2 {
        Err(ProtocolError::ShortHello)
    } else if p.len() >= 10 {
        Ok(
            Hello {
                version: read_be16(p, 0),
                screen_width: Some(read_be32(p, 2)),
                screen_height: Some(read_be32(p, 6)),
            },
        )
    } else {
        Ok(Hello { version: read_be16(p, 0), screen_width: None, screen_height: None })
    }
}

/// The hello payload without a screen size.
pub fn hello_payload() -> (r: Vec<u8>)
    ensures
        r@ == spec_hello_payload(),
{
    let mut out = Vec::new();
    push_be16(&mut out, VERSION);
    assert(out@ =~= spec_hello_payload());
    out
}

/// The hello payload that announces the screen size.
pub fn hello_payload_with_screen(width: u32, height: u32) -> (r: Vec<u8>)
    ensures
        r@ == spec_hello_payload_with_screen(width, height),
{
    let mut out = hello_payload();
    push_be32(&mut out, width);
    push_be32(&mut out, height);
    out
}

/// Decodes a hello payload; the screen size is there when the payload holds it.
pub fn decode_hello(payload: &[u8]) -> (r: Result<Hello, ProtocolError>)
    ensures
        r == spec_decode_hello(payload@),
{
    if payload.len() < 2 {
        return Err(ProtocolError::ShortHello);
    }
    let version = get_be16(payload, 0);
    if payload.len() >= 10 {
        Ok(
            Hello {
                version,
                screen_width: Some(get_be32(payload, 2)),
                screen_height: Some(get_be32(payload, 6)),
            },
        )
    } else {
        Ok(Hello { version, screen_width: None, screen_height: None })
    }
}

#[derive(Debug, Clone, Copy, PartialEq, Eq, Hash, Structural)]
pub enum KeyState {
    Down,
    Up,
    Repeat,
}

#[derive(Debug, Clone, Copy, PartialEq, Eq, Hash, Structural)]
pub enum MouseButton {
    Left,
    Middle,
    Right,
    Extra(u8),
}

/// One input event sent from the server to the client.
#[derive(Debug, Clone, Copy, PartialEq, Eq, Structural)]
pub enum InputEvent {
    Key { scancode: u16, state: KeyState },
    MouseEnter { x: i32, y: i32 },
    MouseDelta { dx: i32, dy: i32 },
    MouseButton { button: MouseButton, down: bool },
    MouseWheel { horizontal: i16, vertical: i16 },
}

pub open spec fn key_state_byte(state: KeyState) -> u8 {
    match state {
        KeyState::Down => 1,
        KeyState::Up => 2,
        KeyState::Repeat => 3,
    }
}

pub open spec fn button_byte(button: MouseButton) -> u8 {
    match button {
        MouseButton::Left => 1,
        MouseButton::Middle => 2,
        MouseButton::Right => 3,
        MouseButton::Extra(id) => id,
    }
}

pub open spec fn button_from_byte(byte: u8) -> MouseButton {
    if byte == 1 {
        MouseButton::Left
    } else if byte == 2 {
        MouseButton::Middle
    } else if byte == 3 {
        MouseButton::Right
    } else {
        MouseButton::Extra(byte)
    }
}

pub open spec fn spec_encode_input(event: InputEvent) -> Seq<u8> {
    match event {
        InputEvent::Key { scancode, state } => seq![1u8] + be16(scancode) + seq![
            key_state_byte(state),
        ],
        InputEvent::MouseEnter { x, y } => seq![2u8] + be32(i32_bits(x)) + be32(i32_bits(y)),
        InputEvent::MouseButton { button, down } => seq![
            3u8,
            button_byte(button),
            if down {
                1u8
            } else {
                0u8
            },
        ],
        InputEvent::MouseWheel { horizontal, vertical } => seq![4u8] + be16(i16_bits(horizontal))
            + be16(i16_bits(vertical)),
        InputEvent::MouseDelta { dx, dy } => seq![5u8] + be32(i32_bits(dx)) + be32(i32_bits(dy)),
    }
}

pub open spec fn spec_decode_input(p: Seq<u8>) -> Result<InputEvent, ProtocolError> {
    if p.len() == 0 {
        Err(ProtocolError::ShortInputEvent)
    } else if p[0] == 1 {
        if p.len() != 4 {
            Err(ProtocolError::InvalidKeyEvent)
        } else if p[3] == 1 {
            Ok(InputEvent::Key { scancode: read_be16(p, 1), state: KeyState::Down })
        } else if p[3] == 2 {
            Ok(InputEvent::Key { scancode: read_be16(p, 1), state: KeyState::Up })
        } else if p[3] == 3 {
            Ok(InputEvent::Key { scancode: read_be16(p, 1), state: KeyState::Repeat })
        } else {
            Err(ProtocolError::InvalidKeyState)
        }
    } else if p[0] == 2 {
        if p.len() != 9 {
            Err(ProtocolError::InvalidMouseEnter)
        } else {
            Ok(InputEvent::MouseEnter { x: bits_i32(read_be32(p, 1)), y: bits_i32(read_be32(p, 5)) })
        }
    } else if p[0] == 3 {
        if p.len() != 3 {
            Err(ProtocolError::InvalidMouseButton)
        } else {
            Ok(InputEvent::MouseButton { button: button_from_byte(p[1]), down: p[2] != 0 })
        }
    } else if p[0] == 4 {
        if p.len() != 5 {
            Err(ProtocolError::InvalidWheel)
        } else {
            Ok(
                InputEvent::MouseWheel {
                    horizontal: bits_i16(read_be16(p, 1)),
                    vertical: bits_i16(read_be16(p, 3)),
                },
            )
        }
    } else if p[0] == 5 {
        if p.len() != 9 {
            Err(ProtocolError::InvalidMouseDelta)
        } else {
            Ok(InputEvent::MouseDelta { dx: bits_i32(read_be32(p, 1)), dy: bits_i32(read_be32(p, 5)) })
        }
    } else {
        Err(ProtocolError::UnknownInputKind)
    }
}

/// Encodes an input event.
pub fn encode_input(event: &InputEvent) -> (r: Vec<u8>)
    ensures
        r@ == spec_encode_input(*event),
{
    let mut payload = Vec::new();
    match *event {
        InputEvent::Key { scancode, state } => {
            payload.push(1);
            push_be16(&mut payload, scancode);
            payload.push(
                match state {
                    KeyState::Down => 1,
                    KeyState::Up => 2,
                    KeyState::Repeat => 3,
                },
            );
        },
        InputEvent::MouseEnter { x, y } => {
            payload.push(2);
            push_be32(&mut payload, to_bits_i32(x));
            push_be32(&mut payload, to_bits_i32(y));
        },
        InputEvent::MouseButton { button, down } => {
            payload.push(3);
            payload.push(
                match button {
                    MouseButton::Left => 1,
                    MouseButton::Middle => 2,
                    MouseButton::Right => 3,
                    MouseButton::Extra(id) => id,
                },
            );
            payload.push(
                if down {
                    1
                } else {
                    0
                },
            );
        },
        InputEvent::MouseWheel { horizontal, vertical } => {
            payload.push(4);
            push_be16(&mut payload, to_bits_i16(horizontal));
            push_be16(&mut payload, to_bits_i16(vertical));
        },
        InputEvent::MouseDelta { dx, dy } => {
            payload.push(5);
            push_be32(&mut payload, to_bits_i32(dx));
            push_be32(&mut payload, to_bits_i32(dy));
        },
    }
    assert(payload@ =~= spec_encode_input(*event));
    payload
}

/// Decodes an input event.
pub fn decode_input(payload: &[u8]) -> (r: Result<InputEvent, ProtocolError>)
    ensures
        r == spec_decode_input(payload@),
{
    if payload.len() == 0 {
        return Err(ProtocolError::ShortInputEvent);
    }
    let kind = payload[0];
    if kind == 1 {
        if payload.len() != 4 {
            return Err(ProtocolError::InvalidKeyEvent);
        }
        let scancode = get_be16(payload, 1);
        let state = match payload[3] {
            1 => KeyState::Down,
            2 => KeyState::Up,
            3 => KeyState::Repeat,
            _ => {
                return Err(ProtocolError::InvalidKeyState);
            },
        };
        Ok(InputEvent::Key { scancode, state })
    } else if kind == 2 {
        if payload.len() != 9 {
            return Err(ProtocolError::InvalidMouseEnter);
        }
        let x = from_bits_i32(get_be32(payload, 1));
        let y = from_bits_i32(get_be32(payload, 5));
        Ok(InputEvent::MouseEnter { x, y })
    } else if kind == 3 {
        if payload.len() != 3 {
            return Err(ProtocolError::InvalidMouseButton);
        }
        let button = match payload[1] {
            1 => MouseButton::Left,
            2 => MouseButton::Middle,
            3 => MouseButton::Right,
            id => MouseButton::Extra(id),
        };
        Ok(InputEvent::MouseButton { button, down: payload[2] != 0 })
    } else if kind == 4 {
        if payload.len() != 5 {
            return Err(ProtocolError::InvalidWheel);
        }
        Ok(
            InputEvent::MouseWheel {
                horizontal: from_bits_i16(get_be16(payload, 1)),
                vertical: from_bits_i16(get_be16(payload, 3)),
            },
        )
    } else if kind == 5 {
        if payload.len() != 9 {
            return Err(ProtocolError::InvalidMouseDelta);
        }
        let dx = from_bits_i32(get_be32(payload, 1));
        let dy = from_bits_i32(get_be32(payload, 5));
        Ok(InputEvent::MouseDelta { dx, dy })
    } else {
        Err(ProtocolError::UnknownInputKind)
    }
}


/// Clipboard contents carried between the peers. File paths are carried as
/// their text.
#[derive(Debug, Clone, PartialEq, Eq)]
pub enum ClipboardPayload {
    Text(String),
    Bitmap(Vec<u8>),
    Files(Vec<String>),
}

/// The mathematical value of a clipboard payload.
pub enum ClipboardModel {
    Text(Seq<char>),
    Bitmap(Seq<u8>),
    Files(Seq<Seq<char>>),
}

impl View for ClipboardPayload {
    type V = ClipboardModel;

    open spec fn view(&self) -> ClipboardModel {
        match self {
            ClipboardPayload::Text(t) => ClipboardModel::Text(t@),
            ClipboardPayload::Bitmap(b) => ClipboardModel::Bitmap(b@),
            ClipboardPayload::Files(f) => ClipboardModel::Files(f@.map_values(|s: String| s@)),
        }
    }
}

/// A length as the 32-bit field that carries it (the low 32 bits).
pub open spec fn len32(n: nat) -> u32 {
    (n % 0x1_0000_0000) as u32
}

/// A byte string with its 32-bit length in front.
pub open spec fn spec_write_bytes(b: Seq<u8>) -> Seq<u8> {
    be32(len32(b.len())) + b
}

/// The encoding of a list of file paths, one length-prefixed string each.
pub open spec fn spec_encode_files(files: Seq<Seq<char>>) -> Seq<u8>
    decreases files.len(),
{
    if files.len() == 0 {
        seq![]
    } else {
        spec_write_bytes(utf8(files[0])) + spec_encode_files(files.drop_first())
    }
}

pub open spec fn spec_encode_clipboard(m: ClipboardModel) -> Seq<u8> {
    match m {
        ClipboardModel::Text(t) => seq![1u8] + spec_write_bytes(utf8(t)),
        ClipboardModel::Bitmap(b) => seq![2u8] + spec_write_bytes(b),
        ClipboardModel::Files(f) => seq![3u8] + be32(len32(f.len())) + spec_encode_files(f),
    }
}

/// Reading a 32-bit value at `off`.
pub open spec fn spec_read_u32(p: Seq<u8>, off: int) -> Result<(u32, int), ProtocolError> {
    if off + 4 <= p.len() {
        Ok((read_be32(p, off), off + 4))
    } else {
        Err(ProtocolError::ShortU32)
    }
}

/// Reading a length-prefixed byte string at `off`.
pub open spec fn spec_read_bytes(p: Seq<u8>, off: int) -> Result<(Seq<u8>, int), ProtocolError> {
    match spec_read_u32(p, off) {
        Err(e) => Err(e),
        Ok((n, start)) => if start + n <= p.len() {
            Ok((p.subrange(start, start + n), start + n))
        } else {
            Err(ProtocolError::TruncatedBytes)
        },
    }
}

/// Reading a length-prefixed UTF-8 string at `off`.
pub open spec fn spec_read_string(p: Seq<u8>, off: int) -> Result<(Seq<char>, int), ProtocolError> {
    match spec_read_bytes(p, off) {
        Err(e) => Err(e),
        Ok((b, next)) => if valid_utf8(b) {
            Ok((decode_utf8(b), next))
        } else {
            Err(ProtocolError::InvalidUtf8)
        },
    }
}

/// Reading `count` length-prefixed strings one after another from `off`.
pub open spec fn spec_read_files(p: Seq<u8>, off: int, count: nat) -> Result<
    (Seq<Seq<char>>, int),
    ProtocolError,
>
    decreases count,
{
    if count == 0 {
        Ok((seq![], off))
    } else {
        match spec_read_string(p, off) {
            Err(e) => Err(e),
            Ok((s, next)) => match spec_read_files(p, next, (count - 1) as nat) {
                Err(e) => Err(e),
                Ok((rest, end)) => Ok((seq![s] + rest, end)),
            },
        }
    }
}

pub open spec fn spec_decode_clipboard(p: Seq<u8>) -> Result<ClipboardModel, ProtocolError> {
    if p.len() == 0 {
        Err(ProtocolError::ShortClipboard)
    } else if p[0] == 1 {
        match spec_read_string(p, 1) {
            Ok((t, _)) => Ok(ClipboardModel::Text(t)),
            Err(e) => Err(e),
        }
    } else if p[0] == 2 {
        match spec_read_bytes(p, 1) {
            Ok((b, _)) => Ok(ClipboardModel::Bitmap(b)),
            Err(e) => Err(e),
        }
    } else if p[0] == 3 {
        match spec_read_u32(p, 1) {
            Err(e) => Err(e),
            Ok((count, next)) => match spec_read_files(p, next, count as nat) {
                Ok((files, _)) => Ok(ClipboardModel::Files(files)),
                Err(e) => Err(e),
            },
        }
    } else {
        Err(ProtocolError::UnknownClipboardKind)
    }
}

/// The decoded value of a result, by its view.
pub open spec fn clipboard_result_view(r: Result<ClipboardPayload, ProtocolError>) -> Result<
    ClipboardModel,
    ProtocolError,
> {
    match r {
        Ok(p) => Ok(p@),
        Err(e) => Err(e),
    }
}

fn length_field(n: usize) -> (r: u32)
    ensures
        r == len32(n as nat),
{
    (n as u64 % 0x1_0000_0000) as u32
}

/// Appends `bytes` with its 32-bit length in front.
fn write_bytes(out: &mut Vec<u8>, bytes: &[u8])
    ensures
        final(out)@ == old(out)@ + spec_write_bytes(bytes@),
{
    push_be32(out, length_field(bytes.len()));
    push_bytes(out, bytes);
    assert(out@ =~= old(out)@ + spec_write_bytes(bytes@));
}

proof fn lemma_encode_files_push(files: Seq<Seq<char>>, f: Seq<char>)
    ensures
        spec_encode_files(files.push(f)) == spec_encode_files(files) + spec_write_bytes(utf8(f)),
    decreases files.len(),
{
    if files.len() == 0 {
        assert(files.push(f).drop_first() =~= seq![]);
        assert(files.push(f)[0] == f);
        assert(spec_encode_files(seq![]) == Seq::<u8>::empty());
        assert(spec_encode_files(files) == Seq::<u8>::empty());
        assert(spec_encode_files(files.push(f)) =~= spec_encode_files(files) + spec_write_bytes(
            utf8(f),
        ));
    } else {
        assert(files.push(f).drop_first() =~= files.drop_first().push(f));
        lemma_encode_files_push(files.drop_first(), f);
        assert(spec_encode_files(files.push(f)) =~= spec_encode_files(files) + spec_write_bytes(
            utf8(f),
        ));
    }
}

/// Encodes clipboard contents.
pub fn encode_clipboard(payload: &ClipboardPayload) -> (r: Vec<u8>)
    ensures
        r@ == spec_encode_clipboard(payload@),
{
    let mut out = Vec::new();
    match payload {
        ClipboardPayload::Text(text) => {
            out.push(1);
            write_bytes(&mut out, text.as_str().as_bytes());
        },
        ClipboardPayload::Bitmap(bitmap) => {
            out.push(2);
            write_bytes(&mut out, bitmap.as_slice());
        },
        ClipboardPayload::Files(files) => {
            out.push(3);
            push_be32(&mut out, length_field(files.len()));
            let ghost views = files@.map_values(|s: String| s@);
            let ghost head = out@;
            let mut i: usize = 0;
            while i < files.len()
                invariant
                    i <= files@.len(),
                    views == files@.map_values(|s: String| s@),
                    out@ == head + spec_encode_files(views.take(i as int)),
                decreases files@.len() - i,
            {
                proof {
                    lemma_encode_files_push(views.take(i as int), views[i as int]);
                    assert(views.take(i as int).push(views[i as int]) =~= views.take(i + 1));
                }
                write_bytes(&mut out, files[i].as_str().as_bytes());
                i = i + 1;
            }
            assert(views.take(i as int) =~= views);
        },
    }
    assert(out@ =~= spec_encode_clipboard(payload@));
    out
}

/// Reads a 32-bit value at `*offset` and moves the offset past it.
fn read_u32(payload: &[u8], offset: &mut usize) -> (r: Result<u32, ProtocolError>)
    requires
        *old(offset) <= payload@.len(),
    ensures
        match (r, spec_read_u32(payload@, *old(offset) as int)) {
            (Ok(v), Ok((w, next))) => v == w && *final(offset) == next,
            (Err(e), Err(f)) => e == f,
            _ => false,
        },
        *final(offset) <= payload@.len(),
{
    if payload.len() - *offset < 4 {
        return Err(ProtocolError::ShortU32);
    }
    let v = get_be32(payload, *offset);
    *offset = *offset + 4;
    Ok(v)
}

/// Reads a length-prefixed byte string at `*offset` and moves the offset past it.
fn read_bytes<'a>(payload: &'a [u8], offset: &mut usize) -> (r: Result<&'a [u8], ProtocolError>)
    requires
        *old(offset) <= payload@.len(),
    ensures
        match (r, spec_read_bytes(payload@, *old(offset) as int)) {
            (Ok(b), Ok((c, next))) => b@ == c && *final(offset) == next,
            (Err(e), Err(f)) => e == f,
            _ => false,
        },
        *final(offset) <= payload@.len(),
{
    let len = read_u32(payload, offset)?;
    if ((payload.len() - *offset) as u64) < len as u64 {
        return Err(ProtocolError::TruncatedBytes);
    }
    let end = *offset + len as usize;
    let bytes = vstd::slice::slice_subrange(payload, *offset, end);
    *offset = end;
    Ok(bytes)
}

/// Reads a length-prefixed UTF-8 string at `*offset` and moves the offset past it.
fn read_string(payload: &[u8], offset: &mut usize) -> (r: Result<String, ProtocolError>)
    requires
        *old(offset) <= payload@.len(),
    ensures
        match (r, spec_read_string(payload@, *old(offset) as int)) {
            (Ok(s), Ok((t, next))) => s@ == t && *final(offset) == next,
            (Err(e), Err(f)) => e == f,
            _ => false,
        },
        *final(offset) <= payload@.len(),
{
    let bytes = read_bytes(payload, offset)?;
    match string_from_utf8(bytes) {
        Some(s) => Ok(s),
        None => Err(ProtocolError::InvalidUtf8),
    }
}

/// Decodes clipboard contents.
pub fn decode_clipboard(payload: &[u8]) -> (r: Result<ClipboardPayload, ProtocolError>)
    ensures
        clipboard_result_view(r) == spec_decode_clipboard(payload@),
{
    if payload.len() == 0 {
        return Err(ProtocolError::ShortClipboard);
    }
    let kind = payload[0];
    let mut offset: usize = 1;
    if kind == 1 {
        let text = read_string(payload, &mut offset)?;
        Ok(ClipboardPayload::Text(text))
    } else if kind == 2 {
        let bytes = read_bytes(payload, &mut offset)?;
        Ok(ClipboardPayload::Bitmap(vstd::slice::slice_to_vec(bytes)))
    } else if kind == 3 {
        let count = read_u32(payload, &mut offset)?;
        let ghost start = offset as int;
        let mut files: Vec<String> = Vec::new();
        let mut i: u32 = 0;
        while i < count
            invariant
                i <= count,
                offset <= payload@.len(),
                payload@.len() > 0,
                payload@[0] == 3,
                spec_read_u32(payload@, 1) == Ok::<(u32, int), ProtocolError>((count, start)),
                spec_read_files(payload@, start, count as nat) == (match spec_read_files(
                    payload@,
                    offset as int,
                    (count - i) as nat,
                ) {
                    Ok((rest, end)) => Ok((files@.map_values(|s: String| s@) + rest, end)),
                    Err(e) => Err(e),
                }),
            decreases count - i,
        {
            let ghost before = offset as int;
            let ghost seen = files@.map_values(|s: String| s@);
            let name = match read_string(payload, &mut offset) {
                Ok(name) => name,
                Err(e) => {
                    assert(spec_read_string(payload@, before) == Err::<(Seq<char>, int), ProtocolError>(e));
                    assert(spec_read_files(payload@, before, (count - i) as nat) == Err::<(Seq<Seq<char>>, int), ProtocolError>(e));
                    return Err(e);
                },
            };
            proof {
                assert(files@.push(name).map_values(|s: String| s@) =~= seen.push(name@));
                match spec_read_files(payload@, offset as int, (count - i - 1) as nat) {
                    Ok((rest, end)) => {
                        assert(seen.push(name@) + rest =~= seen + (seq![name@] + rest));
                    },
                    Err(e) => {},
                }
            }
            files.push(name);
            i = i + 1;
        }
        proof {
            assert(files@.map_values(|s: String| s@) + seq![] =~= files@.map_values(
                |s: String| s@,
            ));
        }
        Ok(ClipboardPayload::Files(files))
    } else {
        Err(ProtocolError::UnknownClipboardKind)
    }
}

pub open spec fn spec_encode_file_start(relative: Seq<char>, len: u64) -> Seq<u8> {
    spec_write_bytes(utf8(relative)) + be64(len)
}

pub open spec fn spec_decode_file_start(p: Seq<u8>) -> Result<(Seq<char>, u64), ProtocolError> {
    match spec_read_string(p, 0) {
        Err(e) => Err(e),
        Ok((relative, next)) => if p.len() < next + 8 {
            Err(ProtocolError::ShortFileStart)
        } else {
            Ok((relative, read_be64(p, next)))
        },
    }
}

/// Encodes the announcement of one file: its relative path and its length.
pub fn encode_file_start(relative: &str, len: u64) -> (r: Vec<u8>)
    ensures
        r@ == spec_encode_file_start(relative@, len),
{
    let mut out = Vec::new();
    write_bytes(&mut out, relative.as_bytes());
    push_be64(&mut out, len);
    assert(out@ =~= spec_encode_file_start(relative@, len));
    out
}

/// Decodes the announcement of one file.
pub fn decode_file_start(payload: &[u8]) -> (r: Result<(String, u64), ProtocolError>)
    ensures
        match (r, spec_decode_file_start(payload@)) {
            (Ok((s, n)), Ok((t, m))) => s@ == t && n == m,
            (Err(e), Err(f)) => e == f,
            _ => false,
        },
{
    let mut offset: usize = 0;
    let relative = read_string(payload, &mut offset)?;
    if payload.len() - offset < 8 {
        return Err(ProtocolError::ShortFileStart);
    }
    let len = get_be64(payload, offset);
    Ok((relative, len))
}

} // verus!

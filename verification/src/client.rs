use vstd::prelude::*;

use crate::motion::{spec_take_events, PendingInput};
use crate::protocol::{
    decode_clipboard, decode_file_start, decode_hello, decode_input, spec_decode_clipboard,
    spec_decode_file_start, spec_decode_hello, spec_decode_input, ClipboardModel, ClipboardPayload,
    Frame, FrameKind, Hello, InputEvent, ProtocolError,
};
use crate::tokens::{parse_u64, spec_parse_unsigned};

verus! {

/// How the server's first frame can fail the handshake.
#[derive(Debug, Clone, Copy, PartialEq, Eq, Structural)]
pub enum HandshakeError {
    /// The first frame is no hello.
    NotHello,
    /// The hello does not decode.
    Protocol(ProtocolError),
}

/// The server's hello, from the first frame it sends.
pub fn check_server_hello(frame: &Frame) -> (r: Result<Hello, HandshakeError>)
    ensures
        frame.kind != FrameKind::Hello ==> r == Err::<Hello, HandshakeError>(HandshakeError::NotHello),
        frame.kind == FrameKind::Hello ==> match spec_decode_hello(frame.payload@) {
            Ok(h) => r == Ok::<Hello, HandshakeError>(h),
            Err(e) => r == Err::<Hello, HandshakeError>(HandshakeError::Protocol(e)),
        },
{
    if frame.kind != FrameKind::Hello {
        return Err(HandshakeError::NotHello);
    }
    match decode_hello(frame.payload.as_slice()) {
        Ok(h) => Ok(h),
        Err(e) => Err(HandshakeError::Protocol(e)),
    }
}

/// What the client does with a frame from the server.
pub enum ClientAction {
    /// Apply an input event.
    ApplyInput(InputEvent),
    /// Write a payload to the local clipboard.
    WriteClipboard(ClipboardPayload),
    /// Start receiving a file under this relative path and length.
    StartFile(String, u64),
    /// Append bytes to the file being received.
    FileChunk(Vec<u8>),
    /// The dragged files are all here: put them on the clipboard.
    FinishFiles,
    /// Nothing.
    Ignore,
}

/// The action for a frame, or why its payload does not decode.
pub fn client_action(frame: Frame) -> (r: Result<ClientAction, ProtocolError>)
    ensures
        frame.kind == FrameKind::Input ==> match spec_decode_input(frame.payload@) {
            Ok(e) => r matches Ok(ClientAction::ApplyInput(f)) && f == e,
            Err(e) => r matches Err(f) && f == e,
        },
        frame.kind == FrameKind::Clipboard ==> match spec_decode_clipboard(frame.payload@) {
            Ok(c) => r matches Ok(ClientAction::WriteClipboard(p)) && p@ == c,
            Err(e) => r matches Err(f) && f == e,
        },
        frame.kind == FrameKind::FileStart ==> match spec_decode_file_start(frame.payload@) {
            Ok((path, len)) => r matches Ok(ClientAction::StartFile(p, n)) && p@ == path && n == len,
            Err(e) => r matches Err(f) && f == e,
        },
        frame.kind == FrameKind::FileChunk ==> (r matches Ok(ClientAction::FileChunk(b)) && b@
            == frame.payload@),
        frame.kind == FrameKind::DragEnd ==> (r matches Ok(ClientAction::FinishFiles)),
        frame.kind != FrameKind::Input && frame.kind != FrameKind::Clipboard && frame.kind
            != FrameKind::FileStart && frame.kind != FrameKind::FileChunk && frame.kind
            != FrameKind::DragEnd ==> (r matches Ok(ClientAction::Ignore)),
{
    match frame.kind {
        FrameKind::Input => match decode_input(frame.payload.as_slice()) {
            Ok(e) => Ok(ClientAction::ApplyInput(e)),
            Err(e) => Err(e),
        },
        FrameKind::Clipboard => match decode_clipboard(frame.payload.as_slice()) {
            Ok(p) => Ok(ClientAction::WriteClipboard(p)),
            Err(e) => Err(e),
        },
        FrameKind::FileStart => match decode_file_start(frame.payload.as_slice()) {
            Ok((path, len)) => Ok(ClientAction::StartFile(path, len)),
            Err(e) => Err(e),
        },
        FrameKind::FileChunk => Ok(ClientAction::FileChunk(frame.payload)),
        FrameKind::DragEnd => Ok(ClientAction::FinishFiles),
        _ => Ok(ClientAction::Ignore),
    }
}

/// Whether an event is batched (pointer motion and wheel) rather than
/// applied in order.
pub open spec fn spec_is_batched(event: InputEvent) -> bool {
    event is MouseDelta || event is MouseWheel
}

pub fn is_batched(event: &InputEvent) -> (r: bool)
    ensures
        r == spec_is_batched(*event),
{
    matches!(event, InputEvent::MouseDelta { .. } | InputEvent::MouseWheel { .. })
}

/// The events to apply for one event that is applied in order: a pointer
/// entry goes before the batch gathered so far (which is then relative to
/// it), any other event after it.
pub fn ordered_events(event: InputEvent, pending: &mut PendingInput) -> (r: Vec<InputEvent>)
    ensures
        *final(pending) == (PendingInput { delta: (0, 0), wheel: (0, 0) }),
        event is MouseEnter ==> r@ == seq![event] + spec_take_events(*old(pending)),
        !(event is MouseEnter) ==> r@ == spec_take_events(*old(pending)).push(event),
{
    if matches!(event, InputEvent::MouseEnter { .. }) {
        let mut out: Vec<InputEvent> = Vec::new();
        out.push(event);
        let mut rest = pending.take_events();
        out.append(&mut rest);
        out
    } else {
        let mut out = pending.take_events();
        out.push(event);
        out
    }
}

/// The interval, in milliseconds, at which batched input is flushed: the
/// override when it reads as a number, the default otherwise; held between
/// 1 and 16.
pub open spec fn spec_input_flush_ms(value: Option<Seq<char>>, default_ms: u64) -> u64 {
    let ms: int = match value {
        Some(v) => match spec_parse_unsigned(v, 10, 0xffff_ffff_ffff_ffff) {
            Some(n) => n as int,
            None => default_ms as int,
        },
        None => default_ms as int,
    };
    if ms < 1 {
        1
    } else if ms > 16 {
        16
    } else {
        ms as u64
    }
}

/// The client flushes every 2 milliseconds unless told otherwise.
pub const CLIENT_INPUT_FLUSH_MS: u64 = 2;
/// The macOS server flushes every 2 milliseconds unless told otherwise.
pub const SERVER_INPUT_FLUSH_MS: u64 = 2;

pub fn input_flush_ms(value: Option<&str>, default_ms: u64) -> (r: u64)
    ensures
        r == spec_input_flush_ms(
            match value {
                Some(v) => Some(v@),
                None => None,
            },
            default_ms,
        ),
{
    let ms: u64 = match value {
        Some(v) => match parse_u64(v) {
            Some(n) => n,
            None => default_ms,
        },
        None => default_ms,
    };
    if ms < 1 {
        1
    } else if ms > 16 {
        16
    } else {
        ms
    }
}

/// The kind of a clipboard payload and how many characters, bytes or
/// files it holds, for the log.
pub open spec fn spec_clipboard_summary(p: ClipboardModel) -> (u8, nat) {
    match p {
        ClipboardModel::Text(t) => (1, t.len()),
        ClipboardModel::Bitmap(b) => (2, b.len()),
        ClipboardModel::Files(f) => (3, f.len()),
    }
}

/// The kind of a clipboard payload (1 text, 2 image, 3 files) and its
/// size: characters, bytes or files.
pub fn clipboard_summary(payload: &ClipboardPayload) -> (r: (u8, usize))
    ensures
        r.0 == spec_clipboard_summary(payload@).0,
        r.1 as nat == spec_clipboard_summary(payload@).1,
{
    match payload {
        ClipboardPayload::Text(text) => (1, text.as_str().unicode_len()),
        ClipboardPayload::Bitmap(bitmap) => (2, bitmap.len()),
        ClipboardPayload::Files(files) => (3, files.len()),
    }
}

} // verus!

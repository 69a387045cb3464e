use vstd::prelude::*;

use crate::protocol::{encode_clipboard, spec_encode_clipboard, ClipboardModel, ClipboardPayload};
use crate::text::bytes_eq;

verus! {

/// How long (in milliseconds) after a clipboard write from the peer a local
/// change of the same kind is taken to be that write's echo.
pub const REMOTE_CLIPBOARD_SUPPRESS_WINDOW_MS: u64 = 1200;

#[derive(Debug, Clone, Copy, PartialEq, Eq, Structural)]
pub enum ClipboardKind {
    Text,
    Bitmap,
    Files,
}

pub open spec fn spec_kind_of(m: ClipboardModel) -> ClipboardKind {
    match m {
        ClipboardModel::Text(_) => ClipboardKind::Text,
        ClipboardModel::Bitmap(_) => ClipboardKind::Bitmap,
        ClipboardModel::Files(_) => ClipboardKind::Files,
    }
}

impl ClipboardKind {
    pub fn from_payload(payload: &ClipboardPayload) -> (r: ClipboardKind)
        ensures
            r == spec_kind_of(payload@),
    {
        match payload {
            ClipboardPayload::Text(_) => ClipboardKind::Text,
            ClipboardPayload::Bitmap(_) => ClipboardKind::Bitmap,
            ClipboardPayload::Files(_) => ClipboardKind::Files,
        }
    }
}

/// What the clipboard watcher remembers: the encoding of the last contents
/// it saw, and which kind of change to take as an echo of a write from the
/// peer, until when (milliseconds on a monotonic clock).
pub struct ClipboardSyncState {
    pub last_observed: Option<Vec<u8>>,
    pub suppress_next_kind: Option<ClipboardKind>,
    pub suppress_until: Option<u64>,
}

/// The state by plain values.
pub struct SyncModel {
    pub last_observed: Option<Seq<u8>>,
    pub suppress_next_kind: Option<ClipboardKind>,
    pub suppress_until: Option<u64>,
}

impl View for ClipboardSyncState {
    type V = SyncModel;

    open spec fn view(&self) -> SyncModel {
        SyncModel {
            last_observed: match self.last_observed {
                Some(v) => Some(v@),
                None => None,
            },
            suppress_next_kind: self.suppress_next_kind,
            suppress_until: self.suppress_until,
        }
    }
}

pub open spec fn cleared(s: SyncModel) -> SyncModel {
    SyncModel { suppress_next_kind: None, suppress_until: None, ..s }
}

/// Whether a change of `kind` at `now` is the echo to hold back; after the
/// question the suppression is spent either way, unless the kind differs.
pub open spec fn spec_should_suppress(s: SyncModel, kind: ClipboardKind, now: u64) -> (SyncModel, bool) {
    if s.suppress_next_kind != Some(kind) {
        (s, false)
    } else {
        (
            cleared(s),
            match s.suppress_until {
                Some(until) => now <= until,
                None => false,
            },
        )
    }
}

/// Whether a local clipboard change is to be sent to the peer, and the
/// state after it.
pub open spec fn spec_accept_local_change(
    s: SyncModel,
    payload: ClipboardModel,
    encoded: Seq<u8>,
    now: u64,
) -> (SyncModel, bool) {
    if s.last_observed == Some(encoded) {
        (s, false)
    } else {
        let (s1, suppress) = spec_should_suppress(s, spec_kind_of(payload), now);
        if suppress {
            (SyncModel { last_observed: Some(encoded), ..s1 }, false)
        } else {
            (SyncModel { last_observed: Some(encoded), ..cleared(s1) }, true)
        }
    }
}

pub open spec fn spec_note_remote_write(s: SyncModel, payload: ClipboardModel, now: u64) -> SyncModel {
    SyncModel {
        last_observed: Some(spec_encode_clipboard(payload)),
        suppress_next_kind: Some(spec_kind_of(payload)),
        suppress_until: Some((now + REMOTE_CLIPBOARD_SUPPRESS_WINDOW_MS) as u64),
    }
}

impl ClipboardSyncState {
    pub fn new() -> (r: ClipboardSyncState)
        ensures
            r@ == (SyncModel { last_observed: None, suppress_next_kind: None, suppress_until: None }),
    {
        ClipboardSyncState { last_observed: None, suppress_next_kind: None, suppress_until: None }
    }

    pub fn clear_suppression(&mut self)
        ensures
            final(self)@ == cleared(old(self)@),
    {
        self.suppress_next_kind = None;
        self.suppress_until = None;
    }

    pub fn should_suppress(&mut self, kind: ClipboardKind, now: u64) -> (r: bool)
        ensures
            (final(self)@, r) == spec_should_suppress(old(self)@, kind, now),
    {
        if self.suppress_next_kind != Some(kind) {
            return false;
        }
        let within = match self.suppress_until {
            Some(until) => now <= until,
            None => false,
        };
        self.clear_suppression();
        within
    }

    /// Decides whether a local clipboard change (with its encoding) is sent
    /// to the peer at time `now`.
    pub fn accept_local_change(&mut self, payload: &ClipboardPayload, encoded: Vec<u8>, now: u64) -> (r:
        bool)
        ensures
            (final(self)@, r) == spec_accept_local_change(old(self)@, payload@, encoded@, now),
    {
        let same = match &self.last_observed {
            Some(last) => bytes_eq(last.as_slice(), encoded.as_slice()),
            None => false,
        };
        if same {
            return false;
        }
        let kind = ClipboardKind::from_payload(payload);
        if self.should_suppress(kind, now) {
            self.last_observed = Some(encoded);
            return false;
        }
        self.clear_suppression();
        self.last_observed = Some(encoded);
        true
    }

    /// Records a clipboard write received from the peer at time `now`.
    pub fn note_remote_write(&mut self, payload: &ClipboardPayload, now: u64)
        requires
            now <= u64::MAX - REMOTE_CLIPBOARD_SUPPRESS_WINDOW_MS,
        ensures
            final(self)@ == spec_note_remote_write(old(self)@, payload@, now),
    {
        self.last_observed = Some(encode_clipboard(payload));
        self.suppress_next_kind = Some(ClipboardKind::from_payload(payload));
        self.suppress_until = Some(now + REMOTE_CLIPBOARD_SUPPRESS_WINDOW_MS);
    }
}

/// A clipboard write received from the peer is not sent back: the same
/// contents seen locally afterwards are not accepted, and a change of the
/// same kind within the window is taken as its echo once.
pub proof fn law_remote_write_not_echoed(
    s: SyncModel,
    remote: ClipboardModel,
    local: ClipboardModel,
    encoded: Seq<u8>,
    t: u64,
    now: u64,
)
    requires
        t <= u64::MAX - REMOTE_CLIPBOARD_SUPPRESS_WINDOW_MS,
    ensures
        ({
            let s1 = spec_note_remote_write(s, remote, t);
            &&& !spec_accept_local_change(s1, remote, spec_encode_clipboard(remote), now).1
            &&& (spec_kind_of(local) == spec_kind_of(remote) && now <= t
                + REMOTE_CLIPBOARD_SUPPRESS_WINDOW_MS) ==> !spec_accept_local_change(
                s1,
                local,
                encoded,
                now,
            ).1
        }),
{
}

/// Any decision on a new change spends the suppression: whether that change
/// was sent or held back as an echo, the next different change is sent.
pub proof fn law_echo_suppressed_once(
    s: SyncModel,
    first: ClipboardModel,
    e1: Seq<u8>,
    second: ClipboardModel,
    e2: Seq<u8>,
    now: u64,
    later: u64,
)
    requires
        e1 != e2,
        s.last_observed != Some(e1),
    ensures
        ({
            let (s1, _) = spec_accept_local_change(s, first, e1, now);
            spec_accept_local_change(s1, second, e2, later).1
        }),
{
}

} // verus!

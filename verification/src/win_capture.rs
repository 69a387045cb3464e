use std::collections::HashSet;

use vstd::prelude::*;
use vstd::std_specs::iter::IteratorSpec;

use crate::arith::{clamp_int, clamp_i16, sat_add_i32, sat_sub};
use crate::keyboard::{key_event, key_event_spec};
use crate::pointer::{scaled, spec_scaled, EDGE_TRIGGER_MARGIN};
use crate::protocol::{
    spec_decode_hello, Frame, FrameKind, Hello, InputEvent, KeyState, MouseButton, ProtocolError,
    decode_hello,
};
use crate::server::Edge;

verus! {

broadcast use vstd::std_specs::hash::group_hash_axioms;

/// How far the locked cursor may move from the anchor.
pub const CURSOR_LOCK_RADIUS: i32 = 2;
/// Wheel pixels sent for one wheel detent.
pub const WHEEL_PIXELS_PER_DETENT: i32 = 240;
/// The remote screen assumed when the client does not say.
pub const DEFAULT_REMOTE_WIDTH: i32 = 1366;
pub const DEFAULT_REMOTE_HEIGHT: i32 = 768;

/// The remote screen size from the client's first frame: the size its
/// hello announces (each side at least one pixel), the default size when it
/// announces none or the frame is no hello.
pub open spec fn spec_remote_size_from_hello(kind: FrameKind, payload: Seq<u8>) -> Result<(i32, i32), ProtocolError> {
    if kind != FrameKind::Hello {
        Ok((DEFAULT_REMOTE_WIDTH, DEFAULT_REMOTE_HEIGHT))
    } else {
        match spec_decode_hello(payload) {
            Ok(h) => {
                let w = match h.screen_width {
                    Some(w) => w as i32,
                    None => DEFAULT_REMOTE_WIDTH,
                };
                let hh = match h.screen_height {
                    Some(v) => v as i32,
                    None => DEFAULT_REMOTE_HEIGHT,
                };
                Ok((if w < 1 { 1i32 } else { w }, if hh < 1 { 1i32 } else { hh }))
            },
            Err(e) => Err(e),
        }
    }
}

/// The remote screen size the client's first frame gives.
pub fn remote_size_from_hello(frame: &Frame) -> (r: Result<(i32, i32), ProtocolError>)
    ensures
        r == spec_remote_size_from_hello(frame.kind, frame.payload@),
{
    if frame.kind != FrameKind::Hello {
        return Ok((DEFAULT_REMOTE_WIDTH, DEFAULT_REMOTE_HEIGHT));
    }
    let hello = match decode_hello(frame.payload.as_slice()) {
        Ok(h) => h,
        Err(e) => return Err(e),
    };
    let w: i32 = match hello.screen_width {
        Some(w) => #[verifier::truncate] (w as i32),
        None => DEFAULT_REMOTE_WIDTH,
    };
    let h: i32 = match hello.screen_height {
        Some(v) => #[verifier::truncate] (v as i32),
        None => DEFAULT_REMOTE_HEIGHT,
    };
    Ok((if w < 1 { 1 } else { w }, if h < 1 { 1 } else { h }))
}

/// The keyboard messages a low-level keyboard hook sees.
#[derive(Debug, Clone, Copy, PartialEq, Eq, Structural)]
pub enum KeyMessage {
    KeyDown,
    SysKeyDown,
    KeyUp,
    SysKeyUp,
    Other,
}

/// The mouse messages a low-level mouse hook sees.
#[derive(Debug, Clone, Copy, PartialEq, Eq, Structural)]
pub enum MouseMessage {
    Move,
    LeftDown,
    LeftUp,
    RightDown,
    RightUp,
    MiddleDown,
    MiddleUp,
    XDown,
    XUp,
    Wheel,
    HWheel,
    Other,
}

/// What to do with the cursor after a hook message.
#[derive(Debug, Clone, Copy, PartialEq, Eq, Structural)]
pub enum CursorCommand {
    /// Leave it as it is.
    Keep,
    /// Put it at the anchor and clip it to a small box around it.
    Lock { x: i32, y: i32 },
    /// Unclip it and put it at this point.
    Release { x: i32, y: i32 },
}

/// The box the cursor is clipped to around an anchor: left, top, right and
/// bottom, the last two exclusive.
pub open spec fn spec_lock_rect(x: i32, y: i32) -> (int, int, int, int) {
    (x - CURSOR_LOCK_RADIUS, y - CURSOR_LOCK_RADIUS, x + CURSOR_LOCK_RADIUS + 1, y
        + CURSOR_LOCK_RADIUS + 1)
}

/// The clip box around an anchor on the screen.
pub fn lock_rect(x: i32, y: i32) -> (r: (i32, i32, i32, i32))
    requires
        0 <= x <= 0x3fff_ffff,
        0 <= y <= 0x3fff_ffff,
    ensures
        (r.0 as int, r.1 as int, r.2 as int, r.3 as int) == spec_lock_rect(x, y),
{
    (x - CURSOR_LOCK_RADIUS, y - CURSOR_LOCK_RADIUS, x + CURSOR_LOCK_RADIUS + 1, y
        + CURSOR_LOCK_RADIUS + 1)
}

/// What the hook does with a message: whether it swallows it, the events
/// it sends to the client, and what happens to the cursor.
pub struct HookOutcome {
    pub swallow: bool,
    pub events: Vec<InputEvent>,
    pub cursor: CursorCommand,
}

/// The state of the capture.
pub struct CaptureModel {
    pub edge: Edge,
    pub win_size: (i32, i32),
    pub remote_size: (i32, i32),
    pub active: bool,
    pub local_left_down: bool,
    pub pressed: Set<u16>,
}

/// Watches the local hooks and decides when control passes to the client
/// and what is sent there.
pub struct CaptureState {
    edge: Edge,
    win_size: (i32, i32),
    remote_size: (i32, i32),
    active: bool,
    local_left_down: bool,
    pressed_keys: HashSet<u16>,
}

impl View for CaptureState {
    type V = CaptureModel;

    closed spec fn view(&self) -> CaptureModel {
        CaptureModel {
            edge: self.edge,
            win_size: self.win_size,
            remote_size: self.remote_size,
            active: self.active,
            local_left_down: self.local_left_down,
            pressed: self.pressed_keys@,
        }
    }
}

/// A screen size of at least one pixel each way.
pub open spec fn screen_of(size: (i32, i32)) -> (i32, i32) {
    (if size.0 < 1 { 1i32 } else { size.0 }, if size.1 < 1 { 1i32 } else { size.1 })
}

/// The middle of the local screen, where the cursor is held.
pub open spec fn spec_anchor(win: (i32, i32)) -> (i32, i32) {
    ((win.0 / 2) as i32, (win.1 / 2) as i32)
}

/// Whether a pointer at `x` has reached the edge that leads to the client.
pub open spec fn spec_crossed_edge(edge: Edge, win: (i32, i32), x: i32) -> bool {
    match edge {
        Edge::Right => x >= sat_add_i32(win.0 as int, -(EDGE_TRIGGER_MARGIN as int)),
        Edge::Left => x <= EDGE_TRIGGER_MARGIN,
    }
}

/// Where the pointer enters the client's screen.
pub open spec fn spec_entry(edge: Edge, win: (i32, i32), remote: (i32, i32), local_y: i32) -> (i32, i32) {
    let y = spec_scaled(local_y, win.1, remote.1);
    match edge {
        Edge::Right => (0i32, y),
        Edge::Left => ((remote.0 - 1) as i32, y),
    }
}

/// Where the cursor is put back when control returns.
pub open spec fn spec_release_point(edge: Edge, win: (i32, i32)) -> (i32, i32) {
    let x = match edge {
        Edge::Right => sat_add_i32(win.0 as int, -2),
        Edge::Left => 1i32,
    };
    (x, (win.1 / 2) as i32)
}

/// The scancode of a hook message: extended keys are 256 above their base.
pub open spec fn spec_normalized_scancode(scan_code: u32, extended: bool) -> int {
    let base = (scan_code as u16) as int;
    if extended {
        base + 256
    } else {
        base
    }
}

/// The scancode a keyboard hook message stands for.
pub fn normalized_scancode(scan_code: u32, extended: bool) -> (r: u16)
    requires
        spec_normalized_scancode(scan_code, extended) <= u16::MAX,
    ensures
        r == spec_normalized_scancode(scan_code, extended),
{
    let base: u16 = #[verifier::truncate] (scan_code as u16);
    if extended {
        base + 256
    } else {
        base
    }
}

/// The button of an X-button message: its high word, with XBUTTON1 and
/// XBUTTON2 as buttons 4 and 5.
pub open spec fn spec_xbutton(mouse_data: u32) -> MouseButton {
    let v = ((mouse_data >> 16u32) & 0xffffu32) as u16;
    if v == 1 {
        MouseButton::Extra(4)
    } else if v == 2 {
        MouseButton::Extra(5)
    } else {
        MouseButton::Extra(v as u8)
    }
}

pub fn xbutton(mouse_data: u32) -> (r: MouseButton)
    ensures
        r == spec_xbutton(mouse_data),
{
    let v: u16 = ((mouse_data >> 16u32) & 0xffffu32) as u16;
    if v == 1 {
        MouseButton::Extra(4)
    } else if v == 2 {
        MouseButton::Extra(5)
    } else {
        MouseButton::Extra(#[verifier::truncate] (v as u8))
    }
}

/// The wheel pixels of a wheel message: its signed high word in 120ths of
/// a detent, scaled to pixels and held in the 16-bit range.
pub fn wheel_pixels(mouse_data: u32) -> (r: i16)
    ensures
        r as int == clamp_int(
            crate::arith::div_toward_zero(
                ((((mouse_data >> 16u32) & 0xffffu32) as u16) as i16) as int * WHEEL_PIXELS_PER_DETENT as int,
                120,
            ),
            i16::MIN as int,
            i16::MAX as int,
        ),
{
    let word: u16 = ((mouse_data >> 16u32) & 0xffffu32) as u16;
    let delta: i32 = (#[verifier::truncate] (word as i16)) as i32;
    let scaled_delta: i32 = delta * WHEEL_PIXELS_PER_DETENT;
    let q: i32 = if scaled_delta >= 0 {
        scaled_delta / 120
    } else {
        -((-scaled_delta) / 120)
    };
    clamp_i16(q) as i16
}

/// Both screens are at least one pixel each way.
pub open spec fn capture_wf(m: CaptureModel) -> bool {
    m.win_size.0 >= 1 && m.win_size.1 >= 1 && m.remote_size.0 >= 1 && m.remote_size.1 >= 1
}

impl CaptureState {
    /// The capture of a server whose client's screen is `remote_size`, its
    /// own screen as the system gives it.
    pub fn new(edge: Edge, screen: (i32, i32), remote_size: (i32, i32)) -> (r: CaptureState)
        ensures
            r@.edge == edge,
            r@.win_size == screen_of(screen),
            r@.remote_size == screen_of(remote_size),
            !r@.active,
            !r@.local_left_down,
            r@.pressed == Set::<u16>::empty(),
            capture_wf(r@),
    {
        CaptureState {
            edge,
            win_size: (if screen.0 < 1 { 1 } else { screen.0 }, if screen.1 < 1 { 1 } else { screen.1 }),
            remote_size: (if remote_size.0 < 1 { 1 } else { remote_size.0 }, if remote_size.1 < 1 { 1 } else { remote_size.1 }),
            active: false,
            local_left_down: false,
            pressed_keys: HashSet::new(),
        }
    }

    /// Whether the client has control.
    pub fn is_active(&self) -> (r: bool)
        ensures
            r == self@.active,
    {
        self.active
    }

    fn anchor(&self) -> (r: (i32, i32))
        requires
            capture_wf(self@),
        ensures
            r == spec_anchor(self@.win_size),
            0 <= r.0 <= 0x3fff_ffff,
            0 <= r.1 <= 0x3fff_ffff,
    {
        (self.win_size.0 / 2, self.win_size.1 / 2)
    }

    /// Hands control to the client: the pointer enters its screen at the
    /// scaled height and the cursor is held at the anchor.
    fn activate(&mut self, local_y: i32, screen: (i32, i32)) -> (r: (InputEvent, CursorCommand))
        requires
            capture_wf(old(self)@),
        ensures
            capture_wf(final(self)@),
            final(self)@ == (CaptureModel {
                active: true,
                local_left_down: false,
                win_size: screen_of(screen),
                ..old(self)@
            }),
            ({
                let e = spec_entry(old(self)@.edge, screen_of(screen), old(self)@.remote_size, local_y);
                let a = spec_anchor(screen_of(screen));
                r == (InputEvent::MouseEnter { x: e.0, y: e.1 }, CursorCommand::Lock { x: a.0, y: a.1 })
            }),
    {
        self.active = true;
        self.local_left_down = false;
        self.win_size = (if screen.0 < 1 { 1 } else { screen.0 }, if screen.1 < 1 { 1 } else { screen.1 });
        let y = scaled(local_y, self.win_size.1, self.remote_size.1);
        let x = match self.edge {
            Edge::Right => 0,
            Edge::Left => self.remote_size.0 - 1,
        };
        let a = self.anchor();
        (InputEvent::MouseEnter { x, y }, CursorCommand::Lock { x: a.0, y: a.1 })
    }

    /// Takes control back: a key-up for each key held on the client, and
    /// the cursor released near the edge.
    fn deactivate(&mut self) -> (r: (Vec<InputEvent>, CursorCommand))
        requires
            capture_wf(old(self)@),
        ensures
            capture_wf(final(self)@),
            final(self)@ == (CaptureModel { active: false, pressed: Set::empty(), ..old(self)@ }),
            r.1 == ({
                let p = spec_release_point(old(self)@.edge, old(self)@.win_size);
                CursorCommand::Release { x: p.0, y: p.1 }
            }),
            r.0@.len() == old(self)@.pressed.len(),
            forall|i: int| 0 <= i < r.0@.len() ==> ((#[trigger] r.0@[i]) matches InputEvent::Key { scancode, state }
                && state == KeyState::Up && old(self)@.pressed.contains(scancode)),
            forall|sc: u16| #[trigger] old(self)@.pressed.contains(sc) ==> exists|i: int|
                0 <= i < r.0@.len() && r.0@[i] == key_event_spec(sc, KeyState::Up),
            forall|i: int, j: int| 0 <= i < j < r.0@.len() ==> r.0@[i] != r.0@[j],
    {
        let mut events: Vec<InputEvent> = Vec::new();
        let ghost ks = vstd::std_specs::hash::spec_hash_keys_iter(&self.pressed_keys).remaining();
        for scancode in it: self.pressed_keys.iter()
            invariant
                it.seq() == ks,
                events@.len() == it.index(),
                forall|i: int|
                    0 <= i < it.index() ==> events@[i] == key_event_spec(*it.seq()[i], KeyState::Up),
        {
            events.push(key_event(*scancode, KeyState::Up));
        }
        proof {
            let dom = old(self)@.pressed;
            assert(ks.unref().to_set() == dom);
            assert(ks.unref().no_duplicates());
            assert forall|i: int| 0 <= i < events@.len() implies (#[trigger] events@[i]) == key_event_spec(ks.unref()[i], KeyState::Up) && dom.contains(ks.unref()[i]) by {
                assert(ks.unref().to_set().contains(ks.unref()[i]));
            }
            assert forall|sc: u16| #[trigger] dom.contains(sc) implies exists|i: int|
                0 <= i < events@.len() && events@[i] == key_event_spec(sc, KeyState::Up) by {
                assert(ks.unref().to_set().contains(sc));
                let i = choose|i: int| 0 <= i < ks.unref().len() && ks.unref()[i] == sc;
                assert(events@[i] == key_event_spec(sc, KeyState::Up));
            }
            assert forall|i: int, j: int| 0 <= i < j < events@.len() implies events@[i] != events@[j] by {
                assert(ks.unref()[i] != ks.unref()[j]);
            }
            assert(dom.len() == ks.unref().len()) by {
                ks.unref().unique_seq_to_set();
            }
        }
        self.pressed_keys = HashSet::new();
        self.active = false;
        let x = match self.edge {
            Edge::Right => sat_sub(self.win_size.0, 2),
            Edge::Left => 1,
        };
        (events, CursorCommand::Release { x, y: self.win_size.1 / 2 })
    }

    /// A keyboard hook message. While the client has control, each key is
    /// swallowed and sent on (a second press of a held key as a repeat);
    /// Scroll Lock takes control back. Otherwise nothing happens.
    pub fn handle_keyboard(
        &mut self,
        message: KeyMessage,
        flag_up: bool,
        vk_scroll: bool,
        scan_code: u32,
        extended: bool,
    ) -> (r: HookOutcome)
        requires
            capture_wf(old(self)@),
            old(self)@.active && (key_is_down(message) || key_is_up(message, flag_up)) && !(
            vk_scroll && key_is_down(message)) ==> spec_normalized_scancode(scan_code, extended)
                <= u16::MAX,
        ensures
            capture_wf(final(self)@),
            !old(self)@.active ==> (final(self)@ == old(self)@ && !r.swallow && r.events@.len() == 0
                && r.cursor == CursorCommand::Keep),
            old(self)@.active && !key_is_down(message) && !key_is_up(message, flag_up) ==> (final(self)@
                == old(self)@ && r.swallow && r.events@.len() == 0 && r.cursor == CursorCommand::Keep),
            old(self)@.active && vk_scroll && key_is_down(message) ==> ({
                let p = spec_release_point(old(self)@.edge, old(self)@.win_size);
                &&& final(self)@ == (CaptureModel { active: false, pressed: Set::empty(), ..old(self)@ })
                &&& r.swallow
                &&& r.cursor == CursorCommand::Release { x: p.0, y: p.1 }
                &&& r.events@.len() == old(self)@.pressed.len()
                &&& forall|i: int| 0 <= i < r.events@.len() ==> ((#[trigger] r.events@[i]) matches InputEvent::Key { scancode, state }
                    && state == KeyState::Up && old(self)@.pressed.contains(scancode))
                &&& forall|sc: u16| #[trigger] old(self)@.pressed.contains(sc) ==> exists|i: int|
                    0 <= i < r.events@.len() && r.events@[i] == key_event_spec(sc, KeyState::Up)
                &&& forall|i: int, j: int| 0 <= i < j < r.events@.len() ==> r.events@[i] != r.events@[j]
            }),
            old(self)@.active && key_is_down(message) && !vk_scroll ==> ({
                let sc = spec_normalized_scancode(scan_code, extended) as u16;
                &&& final(self)@ == (CaptureModel { pressed: old(self)@.pressed.insert(sc), ..old(self)@ })
                &&& r.swallow
                &&& r.cursor == CursorCommand::Keep
                &&& r.events@ == seq![key_event_spec(sc, if old(self)@.pressed.contains(sc) {
                    KeyState::Repeat
                } else {
                    KeyState::Down
                })]
            }),
            old(self)@.active && !key_is_down(message) && key_is_up(message, flag_up) ==> ({
                let sc = spec_normalized_scancode(scan_code, extended) as u16;
                &&& final(self)@ == (CaptureModel { pressed: old(self)@.pressed.remove(sc), ..old(self)@ })
                &&& r.swallow
                &&& r.cursor == CursorCommand::Keep
                &&& r.events@ == seq![key_event_spec(sc, KeyState::Up)]
            }),
    {
        if !self.active {
            return HookOutcome { swallow: false, events: Vec::new(), cursor: CursorCommand::Keep };
        }
        let down = matches!(message, KeyMessage::KeyDown | KeyMessage::SysKeyDown);
        let up = matches!(message, KeyMessage::KeyUp | KeyMessage::SysKeyUp) || flag_up;
        if !down && !up {
            return HookOutcome { swallow: true, events: Vec::new(), cursor: CursorCommand::Keep };
        }
        if vk_scroll && down {
            let (events, cursor) = self.deactivate();
            return HookOutcome { swallow: true, events, cursor };
        }
        let scancode = normalized_scancode(scan_code, extended);
        let state = if down {
            if self.pressed_keys.insert(scancode) {
                KeyState::Down
            } else {
                KeyState::Repeat
            }
        } else {
            self.pressed_keys.remove(&scancode);
            KeyState::Up
        };
        let mut events: Vec<InputEvent> = Vec::new();
        events.push(key_event(scancode, state));
        HookOutcome { swallow: true, events, cursor: CursorCommand::Keep }
    }

    /// A mouse hook message. While the client has control, motion holds
    /// the cursor at the anchor and buttons and wheels are swallowed and
    /// sent on. Otherwise motion that reaches the edge hands control over,
    /// unless the local left button is down.
    pub fn handle_mouse(
        &mut self,
        message: MouseMessage,
        mouse_data: u32,
        injected: bool,
        point: (i32, i32),
        screen: (i32, i32),
    ) -> (r: HookOutcome)
        requires
            capture_wf(old(self)@),
        ensures
            capture_wf(final(self)@),
            message == MouseMessage::Move && old(self)@.active ==> ({
                let a = spec_anchor(old(self)@.win_size);
                &&& final(self)@ == old(self)@
                &&& r.swallow
                &&& r.events@.len() == 0
                &&& r.cursor == (if injected {
                    CursorCommand::Keep
                } else {
                    CursorCommand::Lock { x: a.0, y: a.1 }
                })
            }),
            message == MouseMessage::Move && !old(self)@.active ==> ({
                let win = screen_of(screen);
                let crossed = spec_crossed_edge(old(self)@.edge, win, point.0);
                if crossed && !old(self)@.local_left_down {
                    let e = spec_entry(old(self)@.edge, win, old(self)@.remote_size, point.1);
                    let a = spec_anchor(win);
                    &&& final(self)@ == (CaptureModel { active: true, local_left_down: false, win_size: win, ..old(self)@ })
                    &&& r.swallow
                    &&& r.events@ == seq![InputEvent::MouseEnter { x: e.0, y: e.1 }]
                    &&& r.cursor == CursorCommand::Lock { x: a.0, y: a.1 }
                } else {
                    &&& final(self)@ == (CaptureModel { win_size: win, ..old(self)@ })
                    &&& !r.swallow
                    &&& r.events@.len() == 0
                    &&& r.cursor == CursorCommand::Keep
                }
            }),
            message != MouseMessage::Move && !old(self)@.active ==> ({
                &&& final(self)@ == (CaptureModel {
                    local_left_down: if message == MouseMessage::LeftDown {
                        true
                    } else if message == MouseMessage::LeftUp {
                        false
                    } else {
                        old(self)@.local_left_down
                    },
                    ..old(self)@
                })
                &&& !r.swallow
                &&& r.events@.len() == 0
                &&& r.cursor == CursorCommand::Keep
            }),
            message != MouseMessage::Move && old(self)@.active ==> ({
                &&& final(self)@ == old(self)@
                &&& r.swallow
                &&& r.cursor == CursorCommand::Keep
                &&& r.events@ == match spec_mouse_event(message, mouse_data) {
                    Some(e) => seq![e],
                    None => Seq::empty(),
                }
            }),
    {
        if message == MouseMessage::Move {
            if self.active {
                if injected {
                    return HookOutcome { swallow: true, events: Vec::new(), cursor: CursorCommand::Keep };
                }
                let a = self.anchor();
                return HookOutcome { swallow: true, events: Vec::new(), cursor: CursorCommand::Lock { x: a.0, y: a.1 } };
            }
            self.win_size = (if screen.0 < 1 { 1 } else { screen.0 }, if screen.1 < 1 { 1 } else { screen.1 });
            let crossed = match self.edge {
                Edge::Right => point.0 >= sat_sub(self.win_size.0, EDGE_TRIGGER_MARGIN),
                Edge::Left => point.0 <= EDGE_TRIGGER_MARGIN,
            };
            if crossed {
                if self.local_left_down {
                    return HookOutcome { swallow: false, events: Vec::new(), cursor: CursorCommand::Keep };
                }
                let (enter, cursor) = self.activate(point.1, screen);
                let mut events: Vec<InputEvent> = Vec::new();
                events.push(enter);
                return HookOutcome { swallow: true, events, cursor };
            }
            return HookOutcome { swallow: false, events: Vec::new(), cursor: CursorCommand::Keep };
        }
        if !self.active {
            if message == MouseMessage::LeftDown {
                self.local_left_down = true;
            } else if message == MouseMessage::LeftUp {
                self.local_left_down = false;
            }
            return HookOutcome { swallow: false, events: Vec::new(), cursor: CursorCommand::Keep };
        }
        let mut events: Vec<InputEvent> = Vec::new();
        match mouse_event(message, mouse_data) {
            Some(e) => events.push(e),
            None => {},
        }
        HookOutcome { swallow: true, events, cursor: CursorCommand::Keep }
    }

    /// Relative motion from raw input: sent on while the client has control.
    pub fn handle_raw_mouse_delta(&self, dx: i32, dy: i32) -> (r: Vec<InputEvent>)
        ensures
            self@.active ==> r@ == seq![InputEvent::MouseDelta { dx, dy }],
            !self@.active ==> r@.len() == 0,
    {
        let mut events: Vec<InputEvent> = Vec::new();
        if self.active {
            events.push(InputEvent::MouseDelta { dx, dy });
        }
        events
    }
}

pub open spec fn key_is_down(m: KeyMessage) -> bool {
    m == KeyMessage::KeyDown || m == KeyMessage::SysKeyDown
}

pub open spec fn key_is_up(m: KeyMessage, flag_up: bool) -> bool {
    m == KeyMessage::KeyUp || m == KeyMessage::SysKeyUp || flag_up
}

/// The event a button or wheel message stands for while the client has
/// control.
pub open spec fn spec_mouse_event(message: MouseMessage, mouse_data: u32) -> Option<InputEvent> {
    let wheel = clamp_int(
        crate::arith::div_toward_zero(
            ((((mouse_data >> 16u32) & 0xffffu32) as u16) as i16) as int * WHEEL_PIXELS_PER_DETENT as int,
            120,
        ),
        i16::MIN as int,
        i16::MAX as int,
    ) as i16;
    match message {
        MouseMessage::LeftDown => Some(InputEvent::MouseButton { button: MouseButton::Left, down: true }),
        MouseMessage::LeftUp => Some(InputEvent::MouseButton { button: MouseButton::Left, down: false }),
        MouseMessage::RightDown => Some(InputEvent::MouseButton { button: MouseButton::Right, down: true }),
        MouseMessage::RightUp => Some(InputEvent::MouseButton { button: MouseButton::Right, down: false }),
        MouseMessage::MiddleDown => Some(InputEvent::MouseButton { button: MouseButton::Middle, down: true }),
        MouseMessage::MiddleUp => Some(InputEvent::MouseButton { button: MouseButton::Middle, down: false }),
        MouseMessage::XDown => Some(InputEvent::MouseButton { button: spec_xbutton(mouse_data), down: true }),
        MouseMessage::XUp => Some(InputEvent::MouseButton { button: spec_xbutton(mouse_data), down: false }),
        MouseMessage::Wheel => Some(InputEvent::MouseWheel { horizontal: 0, vertical: wheel }),
        MouseMessage::HWheel => Some(InputEvent::MouseWheel { horizontal: wheel, vertical: 0 }),
        _ => None,
    }
}

fn mouse_event(message: MouseMessage, mouse_data: u32) -> (r: Option<InputEvent>)
    ensures
        r == spec_mouse_event(message, mouse_data),
{
    match message {
        MouseMessage::LeftDown => Some(InputEvent::MouseButton { button: MouseButton::Left, down: true }),
        MouseMessage::LeftUp => Some(InputEvent::MouseButton { button: MouseButton::Left, down: false }),
        MouseMessage::RightDown => Some(InputEvent::MouseButton { button: MouseButton::Right, down: true }),
        MouseMessage::RightUp => Some(InputEvent::MouseButton { button: MouseButton::Right, down: false }),
        MouseMessage::MiddleDown => Some(InputEvent::MouseButton { button: MouseButton::Middle, down: true }),
        MouseMessage::MiddleUp => Some(InputEvent::MouseButton { button: MouseButton::Middle, down: false }),
        MouseMessage::XDown => Some(InputEvent::MouseButton { button: xbutton(mouse_data), down: true }),
        MouseMessage::XUp => Some(InputEvent::MouseButton { button: xbutton(mouse_data), down: false }),
        MouseMessage::Wheel => Some(InputEvent::MouseWheel { horizontal: 0, vertical: wheel_pixels(mouse_data) }),
        MouseMessage::HWheel => Some(InputEvent::MouseWheel { horizontal: wheel_pixels(mouse_data), vertical: 0 }),
        _ => None,
    }
}


/// The wheel event a gathered wheel amount is sent as, if there is any.
pub open spec fn wheel_flush(wheel: (i32, i32)) -> Seq<InputEvent> {
    if wheel.0 != 0 || wheel.1 != 0 {
        seq![InputEvent::MouseWheel {
            horizontal: clamp_int(wheel.0 as int, i16::MIN as int, i16::MAX as int) as i16,
            vertical: clamp_int(wheel.1 as int, i16::MIN as int, i16::MAX as int) as i16,
        }]
    } else {
        seq![]
    }
}

/// Gathers the wheel between writes to the client; motion and every other
/// event are written at once, after what was gathered.
pub struct InputCoalescer {
    wheel: (i32, i32),
}

impl View for InputCoalescer {
    type V = (i32, i32);

    closed spec fn view(&self) -> (i32, i32) {
        self.wheel
    }
}

impl InputCoalescer {
    pub fn new() -> (r: InputCoalescer)
        ensures
            r@ == (0i32, 0i32),
    {
        InputCoalescer { wheel: (0, 0) }
    }

    /// Whether the wheel gathered so far and this much more still fit in 32 bits.
    pub fn wheel_fits(&self, horizontal: i16, vertical: i16) -> (r: bool)
        ensures
            r == (i32::MIN <= self@.0 + horizontal <= i32::MAX && i32::MIN <= self@.1 + vertical
                <= i32::MAX),
    {
        let h = self.wheel.0 as i64 + horizontal as i64;
        let v = self.wheel.1 as i64 + vertical as i64;
        i32::MIN as i64 <= h && h <= i32::MAX as i64 && i32::MIN as i64 <= v && v <= i32::MAX as i64
    }

    fn flush(&mut self) -> (r: Vec<InputEvent>)
        ensures
            final(self)@ == (0i32, 0i32),
            r@ == wheel_flush(old(self)@),
    {
        let mut out: Vec<InputEvent> = Vec::new();
        if self.wheel.0 != 0 || self.wheel.1 != 0 {
            out.push(InputEvent::MouseWheel {
                horizontal: clamp_i16(self.wheel.0),
                vertical: clamp_i16(self.wheel.1),
            });
        }
        self.wheel = (0, 0);
        out
    }

    /// The events to write for one event from the hooks: a wheel is
    /// gathered; motion is written at once, then what wheel was gathered;
    /// any other event is written after the gathered wheel.
    pub fn push(&mut self, event: InputEvent) -> (r: Vec<InputEvent>)
        requires
            event matches InputEvent::MouseWheel { horizontal, vertical } ==> (i32::MIN <= old(
                self,
            )@.0 + horizontal <= i32::MAX && i32::MIN <= old(self)@.1 + vertical <= i32::MAX),
        ensures
            match event {
                InputEvent::MouseWheel { horizontal, vertical } => final(self)@ == (
                    (old(self)@.0 + horizontal) as i32,
                    (old(self)@.1 + vertical) as i32,
                ) && r@.len() == 0,
                InputEvent::MouseDelta { dx, dy } => final(self)@ == (0i32, 0i32) && r@ == (if dx
                    != 0 || dy != 0 {
                    seq![InputEvent::MouseDelta { dx, dy }]
                } else {
                    Seq::empty()
                }) + wheel_flush(old(self)@),
                _ => final(self)@ == (0i32, 0i32) && r@ == wheel_flush(old(self)@).push(event),
            },
    {
        match event {
            InputEvent::MouseWheel { horizontal, vertical } => {
                self.wheel = (self.wheel.0 + horizontal as i32, self.wheel.1 + vertical as i32);
                Vec::new()
            },
            InputEvent::MouseDelta { dx, dy } => {
                let mut out: Vec<InputEvent> = Vec::new();
                if dx != 0 || dy != 0 {
                    out.push(InputEvent::MouseDelta { dx, dy });
                }
                let mut rest = self.flush();
                out.append(&mut rest);
                out
            },
            _ => {
                let mut out = self.flush();
                out.push(event);
                out
            },
        }
    }

    /// The events to write when nothing came for a while, or the hooks are
    /// gone: the wheel gathered so far.
    pub fn flush_pending(&mut self) -> (r: Vec<InputEvent>)
        ensures
            final(self)@ == (0i32, 0i32),
            r@ == wheel_flush(old(self)@),
    {
        self.flush()
    }
}

} // verus!

use std::collections::HashSet;

use vstd::prelude::*;
use vstd::std_specs::iter::IteratorSpec;

use crate::arith::{clamp_i16, clamp_int};
use crate::keyboard::{
    key_event_spec, spec_flags_changed, spec_key_down, spec_key_up, spec_sync_flags,
    KeyboardModel, KeyboardRouter,
};
use crate::keymap::{mac_other_button, spec_mac_other_button};
use crate::motion::RemoteCursorLock;
use crate::pointer::{
    spec_is_remote, spec_observe_local_button, spec_observe_local_motion,
    spec_observe_remote_motion, spec_return_to_local, spec_valid_size, MotionAction, PointerRouter,
    RouterModel,
};
use crate::protocol::{InputEvent, KeyState, MouseButton};

verus! {

broadcast use vstd::std_specs::hash::group_hash_axioms;

pub const TAP_MOUSE_MOVED: u32 = 1;
pub const TAP_MOUSE_LEFT_DOWN: u32 = 2;
pub const TAP_MOUSE_LEFT_UP: u32 = 3;
pub const TAP_MOUSE_RIGHT_DOWN: u32 = 4;
pub const TAP_MOUSE_RIGHT_UP: u32 = 5;
pub const TAP_MOUSE_OTHER_DOWN: u32 = 6;
pub const TAP_MOUSE_OTHER_UP: u32 = 7;
pub const TAP_SCROLL: u32 = 20;
pub const TAP_KEY_DOWN: u32 = 21;
pub const TAP_KEY_UP: u32 = 22;
pub const TAP_FLAGS_CHANGED: u32 = 23;

/// An event of the macOS event tap, its fields read by kind.
#[derive(Debug, Clone, Copy, PartialEq, Eq, Structural)]
pub enum TapEvent {
    /// Motion: the relative motion, the pointer's point and the modifier
    /// flags.
    MouseMoved { dx: i32, dy: i32, x: i32, y: i32, flags: u64 },
    MouseButton { button: MouseButton, down: bool },
    Scroll { horizontal: i16, vertical: i16 },
    KeyDown { keycode: u16, repeat: bool },
    KeyUp { keycode: u16 },
    FlagsChanged { keycode: u16, flags: u64 },
    Other,
}

/// How a raw tap event reads, its point already rounded.
pub open spec fn spec_decode_tap(kind: u32, a: i64, b: i64, c: i64, d: i64, x: i32, y: i32) -> TapEvent {
    if kind == TAP_MOUSE_MOVED {
        TapEvent::MouseMoved { dx: b as i32, dy: c as i32, x, y, flags: d as u64 }
    } else if kind == TAP_MOUSE_LEFT_DOWN {
        TapEvent::MouseButton { button: MouseButton::Left, down: true }
    } else if kind == TAP_MOUSE_LEFT_UP {
        TapEvent::MouseButton { button: MouseButton::Left, down: false }
    } else if kind == TAP_MOUSE_RIGHT_DOWN {
        TapEvent::MouseButton { button: MouseButton::Right, down: true }
    } else if kind == TAP_MOUSE_RIGHT_UP {
        TapEvent::MouseButton { button: MouseButton::Right, down: false }
    } else if kind == TAP_MOUSE_OTHER_DOWN {
        TapEvent::MouseButton { button: spec_mac_other_button(a), down: true }
    } else if kind == TAP_MOUSE_OTHER_UP {
        TapEvent::MouseButton { button: spec_mac_other_button(a), down: false }
    } else if kind == TAP_SCROLL {
        TapEvent::Scroll {
            horizontal: clamp_int((a as i32) as int, i16::MIN as int, i16::MAX as int) as i16,
            vertical: clamp_int((b as i32) as int, i16::MIN as int, i16::MAX as int) as i16,
        }
    } else if kind == TAP_KEY_DOWN {
        TapEvent::KeyDown { keycode: a as u16, repeat: b != 0 }
    } else if kind == TAP_KEY_UP {
        TapEvent::KeyUp { keycode: a as u16 }
    } else if kind == TAP_FLAGS_CHANGED {
        TapEvent::FlagsChanged { keycode: a as u16, flags: c as u64 }
    } else {
        TapEvent::Other
    }
}

/// Reads a raw tap event; the point is the tap's point rounded.
pub fn decode_tap(kind: u32, a: i64, b: i64, c: i64, d: i64, x: i32, y: i32) -> (r: TapEvent)
    ensures
        r == spec_decode_tap(kind, a, b, c, d, x, y),
{
    if kind == TAP_MOUSE_MOVED {
        TapEvent::MouseMoved {
            dx: #[verifier::truncate] (b as i32),
            dy: #[verifier::truncate] (c as i32),
            x,
            y,
            flags: #[verifier::truncate] (d as u64),
        }
    } else if kind == TAP_MOUSE_LEFT_DOWN {
        TapEvent::MouseButton { button: MouseButton::Left, down: true }
    } else if kind == TAP_MOUSE_LEFT_UP {
        TapEvent::MouseButton { button: MouseButton::Left, down: false }
    } else if kind == TAP_MOUSE_RIGHT_DOWN {
        TapEvent::MouseButton { button: MouseButton::Right, down: true }
    } else if kind == TAP_MOUSE_RIGHT_UP {
        TapEvent::MouseButton { button: MouseButton::Right, down: false }
    } else if kind == TAP_MOUSE_OTHER_DOWN {
        TapEvent::MouseButton { button: mac_other_button(a), down: true }
    } else if kind == TAP_MOUSE_OTHER_UP {
        TapEvent::MouseButton { button: mac_other_button(a), down: false }
    } else if kind == TAP_SCROLL {
        TapEvent::Scroll {
            horizontal: clamp_i16(#[verifier::truncate] (a as i32)),
            vertical: clamp_i16(#[verifier::truncate] (b as i32)),
        }
    } else if kind == TAP_KEY_DOWN {
        TapEvent::KeyDown { keycode: #[verifier::truncate] (a as u16), repeat: b != 0 }
    } else if kind == TAP_KEY_UP {
        TapEvent::KeyUp { keycode: #[verifier::truncate] (a as u16) }
    } else if kind == TAP_FLAGS_CHANGED {
        TapEvent::FlagsChanged {
            keycode: #[verifier::truncate] (a as u16),
            flags: #[verifier::truncate] (c as u64),
        }
    } else {
        TapEvent::Other
    }
}

/// A number for each button, to keep the set of held buttons.
pub open spec fn button_code(b: MouseButton) -> u16 {
    match b {
        MouseButton::Left => 0,
        MouseButton::Right => 1,
        MouseButton::Middle => 2,
        MouseButton::Extra(n) => (3 + n) as u16,
    }
}

/// The button a number stands for.
pub open spec fn code_button(c: u16) -> MouseButton {
    if c == 0 {
        MouseButton::Left
    } else if c == 1 {
        MouseButton::Right
    } else if c == 2 {
        MouseButton::Middle
    } else {
        MouseButton::Extra((c - 3) as u8)
    }
}

/// A button's number names that button again.
pub proof fn law_button_code_roundtrip(b: MouseButton)
    ensures
        code_button(button_code(b)) == b,
{
}

/// The number of a button.
pub fn code_of_button(b: MouseButton) -> (r: u16)
    ensures
        r == button_code(b),
{
    match b {
        MouseButton::Left => 0,
        MouseButton::Right => 1,
        MouseButton::Middle => 2,
        MouseButton::Extra(n) => 3 + n as u16,
    }
}

/// The button of a number.
pub fn button_of_code(c: u16) -> (r: MouseButton)
    ensures
        r == code_button(c),
{
    if c == 0 {
        MouseButton::Left
    } else if c == 1 {
        MouseButton::Right
    } else if c == 2 {
        MouseButton::Middle
    } else {
        MouseButton::Extra(#[verifier::truncate] ((c - 3) as u8))
    }
}

/// What to do with the macOS cursor.
#[derive(Debug, Clone, Copy, PartialEq, Eq, Structural)]
pub enum TapCommand {
    SetCursor { x: i32, y: i32 },
    /// Let the cursor follow the mouse again.
    RestoreCursorAssociation,
}

/// What the tap does with an event: whether it keeps it from macOS, the
/// events sent to the client, and what is done with the cursor.
pub struct TapOutcome {
    pub consumed: bool,
    pub events: Vec<InputEvent>,
    pub commands: Vec<TapCommand>,
}

pub struct MacCaptureModel {
    pub pointer: RouterModel,
    pub keyboard: KeyboardModel,
    pub buttons: Set<u16>,
    pub anchor: Option<(i32, i32)>,
}

/// The macOS server's capture: where the pointer is, what keys and buttons
/// the client holds, and where the local cursor is pinned meanwhile.
pub struct MacCapture {
    pointer: PointerRouter,
    keyboard: KeyboardRouter,
    remote_buttons: HashSet<u16>,
    cursor_lock: RemoteCursorLock,
}

impl View for MacCapture {
    type V = MacCaptureModel;

    closed spec fn view(&self) -> MacCaptureModel {
        MacCaptureModel {
            pointer: self.pointer@,
            keyboard: self.keyboard@,
            buttons: self.remote_buttons@,
            anchor: self.cursor_lock.anchor,
        }
    }
}

/// The commands that pin the cursor at the anchor, if there is one.
pub open spec fn pin_commands(anchor: Option<(i32, i32)>) -> Seq<TapCommand> {
    match anchor {
        Some((x, y)) => seq![TapCommand::SetCursor { x, y }],
        None => seq![],
    }
}

/// Whether `events` are a release of every key in `keys` and every button
/// in `buttons`, keys first, each once.
pub open spec fn is_release_of(events: Seq<InputEvent>, keys: Set<u16>, buttons: Set<u16>) -> bool {
    &&& events.len() == keys.len() + buttons.len()
    &&& forall|i: int| 0 <= i < keys.len() ==> ((#[trigger] events[i]) matches InputEvent::Key { scancode, state }
        && state == KeyState::Up && keys.contains(scancode))
    &&& forall|i: int| keys.len() <= i < events.len() ==> ((#[trigger] events[i]) matches InputEvent::MouseButton { button, down }
        && !down && buttons.contains(button_code(button)))
    &&& forall|k: u16| #[trigger] keys.contains(k) ==> exists|i: int| 0 <= i < keys.len() && events[i] == key_event_spec(k, KeyState::Up)
    &&& forall|c: u16| #[trigger] buttons.contains(c) ==> exists|i: int| keys.len() <= i < events.len() && events[i] == (InputEvent::MouseButton { button: code_button(c), down: false })
}

/// The keyboard after a release of everything.
pub open spec fn released_keyboard(k: KeyboardModel) -> KeyboardModel {
    KeyboardModel {
        mapping: k.mapping,
        pressed: Map::empty(),
        regular: Set::empty(),
        command: None,
        control: None,
        option: None,
        shift: None,
    }
}

impl MacCapture {
    /// The keyboard router's invariant holds and the set of held buttons
    /// is finite and holds button numbers only.
    pub closed spec fn wf(&self) -> bool {
        &&& self.keyboard.wf()
        &&& self.remote_buttons@.finite()
        &&& forall|c: u16| #[trigger] self.remote_buttons@.contains(c) ==> c <= 258
    }

    /// A capture for a client screen beyond `edge`.
    pub fn new(
        edge: crate::server::Edge,
        local_size: (i32, i32),
        remote_size: (i32, i32),
        mapping: crate::keyboard::ModifierMapping,
    ) -> (r: MacCapture)
        ensures
            r.wf(),
            r@.pointer == (RouterModel {
                edge,
                local_size: spec_valid_size(local_size),
                remote_size: spec_valid_size(remote_size),
                remote_pos: (0, 0),
                phase: crate::pointer::PointerPhase::Local { armed: true },
                local_buttons_down: 0,
            }),
            r@.keyboard == released_keyboard(r@.keyboard),
            r@.keyboard.mapping == mapping,
            r@.buttons == Set::<u16>::empty(),
            r@.anchor == None::<(i32, i32)>,
    {
        MacCapture {
            pointer: PointerRouter::new(edge, local_size, remote_size),
            keyboard: KeyboardRouter::new(mapping),
            remote_buttons: HashSet::new(),
            cursor_lock: RemoteCursorLock::new(),
        }
    }

    fn pin(&self, commands: &mut Vec<TapCommand>)
        ensures
            final(commands)@ == old(commands)@ + pin_commands(self@.anchor),
    {
        match self.cursor_lock.position() {
            Some((x, y)) => {
                commands.push(TapCommand::SetCursor { x, y });
            },
            None => {
                assert(old(commands)@ + Seq::<TapCommand>::empty() =~= commands@);
            },
        }
        proof {
            if self@.anchor is Some {
                assert(commands@ =~= old(commands)@ + pin_commands(self@.anchor));
            }
        }
    }

    /// Releases every key and button the client holds.
    fn release_remote(&mut self) -> (r: Vec<InputEvent>)
        requires
            old(self).wf(),
            forall|c: u16| #[trigger] old(self)@.buttons.contains(c) ==> c <= 258,
        ensures
            final(self).wf(),
            final(self)@ == (MacCaptureModel {
                keyboard: released_keyboard(old(self)@.keyboard),
                buttons: Set::empty(),
                ..old(self)@
            }),
            is_release_of(r@, old(self)@.keyboard.pressed.dom(), old(self)@.buttons),
    {
        let mut events = self.keyboard.release_all();
        let ghost nkeys = events@.len();
        let ghost keys = old(self)@.keyboard.pressed.dom();
        let ghost kev = events@;
        let ghost ks = vstd::std_specs::hash::spec_hash_keys_iter(&self.remote_buttons).remaining();
        for code in it: self.remote_buttons.iter()
            invariant
                it.seq() == ks,
                events@.len() == nkeys + it.index(),
                events@.take(nkeys as int) == kev,
                forall|i: int| 0 <= i < it.index() ==> events@[nkeys + i] == (InputEvent::MouseButton { button: code_button(*it.seq()[i]), down: false }),
        {
            let ghost before = events@;
            events.push(InputEvent::MouseButton { button: button_of_code(*code), down: false });
            assert(events@.take(nkeys as int) =~= before.take(nkeys as int));
        }
        proof {
            let dom = old(self)@.buttons;
            assert(ks.unref().to_set() == dom);
            assert(ks.unref().no_duplicates());
            assert(dom.len() == ks.unref().len()) by {
                ks.unref().unique_seq_to_set();
            }
            assert(kev.len() == keys.len());
            assert forall|i: int| 0 <= i < keys.len() implies ((#[trigger] events@[i]) matches InputEvent::Key { scancode, state }
                && state == KeyState::Up && keys.contains(scancode)) by {
                assert(events@[i] == events@.take(nkeys as int)[i]);
            }
            assert forall|i: int| keys.len() <= i < events@.len() implies ((#[trigger] events@[i]) matches InputEvent::MouseButton { button, down }
                && !down && dom.contains(button_code(button))) by {
                let j = i - nkeys;
                assert(ks.unref().to_set().contains(ks.unref()[j]));
                assert(button_code(code_button(ks.unref()[j])) == ks.unref()[j]) by {
                    let c = ks.unref()[j];
                    assert(dom.contains(c));
                }
            }
            assert forall|k: u16| #[trigger] keys.contains(k) implies exists|i: int| 0 <= i < keys.len() && events@[i] == key_event_spec(k, KeyState::Up) by {
                let i = choose|i: int| 0 <= i < kev.len() && kev[i] == key_event_spec(k, KeyState::Up);
                assert(events@[i] == events@.take(nkeys as int)[i]);
            }
            assert forall|c: u16| #[trigger] dom.contains(c) implies exists|i: int| keys.len() <= i < events@.len() && events@[i] == (InputEvent::MouseButton { button: code_button(c), down: false }) by {
                assert(ks.unref().to_set().contains(c));
                let j = choose|j: int| 0 <= j < ks.unref().len() && ks.unref()[j] == c;
                assert(events@[nkeys + j] == (InputEvent::MouseButton { button: code_button(c), down: false }));
            }
        }
        self.remote_buttons = HashSet::new();
        events
    }

    /// Whether the client has control.
    pub fn is_remote(&self) -> (r: bool)
        ensures
            r == spec_is_remote(self@.pointer),
    {
        self.pointer.is_remote()
    }

    /// One event of the tap. `screen` is the local screen's size as the
    /// system gives it now.
    pub fn handle_tap(&mut self, event: TapEvent, screen: (i32, i32)) -> (r: TapOutcome)
        requires
            old(self).wf(),
        ensures
            final(self).wf(),
            tap_step(old(self)@, event, screen, final(self)@, r.consumed, r.events@, r.commands@),
    {
        let mut events: Vec<InputEvent> = Vec::new();
        let mut commands: Vec<TapCommand> = Vec::new();
        match event {
            TapEvent::MouseMoved { dx, dy, x, y, flags } => {
                if self.pointer.is_remote() {
                    if dx == 0 && dy == 0 {
                        self.pin(&mut commands);
                        return TapOutcome { consumed: true, events, commands };
                    }
                    let allow = self.remote_buttons.is_empty();
                    let ghost m = self@;
                    let act = self.pointer.observe_remote_motion(dx, dy, allow);
                    let ghost p1 = self.pointer@;
                    assert(self@ == (MacCaptureModel { pointer: p1, ..m }));
                    match act {
                        MotionAction::MoveRemote { dx, dy } => {
                            events.push(InputEvent::MouseDelta { dx, dy });
                            self.pin(&mut commands);
                            assert(events@ =~= seq![InputEvent::MouseDelta { dx, dy }]);
                            assert(commands@ =~= pin_commands(m.anchor));
                        },
                        MotionAction::ReturnLocal { x, y } => {
                            events = self.release_remote();
                            self.cursor_lock.end();
                            commands.push(TapCommand::RestoreCursorAssociation);
                            commands.push(TapCommand::SetCursor { x, y });
                            assert(commands@ =~= seq![TapCommand::RestoreCursorAssociation, TapCommand::SetCursor { x, y }]);
                        },
                        _ => {},
                    }
                    return TapOutcome { consumed: true, events, commands };
                }
                self.pointer.update_local_size(screen);
                match self.pointer.observe_local_motion(x, y) {
                    MotionAction::EnterRemote { x: ex, y: ey } => {
                        events.push(InputEvent::MouseEnter { x: ex, y: ey });
                        let mut synced = self.keyboard.sync_flags(flags);
                        events.append(&mut synced);
                        let w: i32 = if screen.0 < 1 { 1 } else { screen.0 };
                        let h: i32 = if screen.1 < 1 { 1 } else { screen.1 };
                        let (ax, ay) = self.cursor_lock.begin(x, y, (w, h));
                        commands.push(TapCommand::SetCursor { x: ax, y: ay });
                        TapOutcome { consumed: true, events, commands }
                    },
                    _ => TapOutcome { consumed: false, events, commands },
                }
            },
            TapEvent::MouseButton { button, down } => {
                if !self.pointer.is_remote() {
                    self.pointer.observe_local_button(down);
                    return TapOutcome { consumed: false, events, commands };
                }
                let code = code_of_button(button);
                if down {
                    self.remote_buttons.insert(code);
                } else {
                    self.remote_buttons.remove(&code);
                }
                events.push(InputEvent::MouseButton { button, down });
                TapOutcome { consumed: true, events, commands }
            },
            TapEvent::Scroll { horizontal, vertical } => {
                if !self.pointer.is_remote() {
                    return TapOutcome { consumed: false, events, commands };
                }
                events.push(InputEvent::MouseWheel { horizontal, vertical });
                TapOutcome { consumed: true, events, commands }
            },
            TapEvent::KeyDown { keycode, repeat } => {
                if !self.pointer.is_remote() {
                    return TapOutcome { consumed: false, events, commands };
                }
                let events = self.keyboard.key_down(keycode, repeat);
                TapOutcome { consumed: true, events, commands }
            },
            TapEvent::KeyUp { keycode } => {
                if !self.pointer.is_remote() {
                    return TapOutcome { consumed: false, events, commands };
                }
                let events = self.keyboard.key_up(keycode);
                TapOutcome { consumed: true, events, commands }
            },
            TapEvent::FlagsChanged { keycode, flags } => {
                if !self.pointer.is_remote() {
                    return TapOutcome { consumed: false, events, commands };
                }
                let events = self.keyboard.flags_changed(keycode, flags);
                TapOutcome { consumed: true, events, commands }
            },
            TapEvent::Other => TapOutcome { consumed: false, events, commands },
        }
    }

    /// Gives control back to macOS, as when the server stops: everything
    /// the client holds is released, the cursor is let go, and it is put
    /// where the pointer returns when it was on the client's screen.
    pub fn restore_to_local(&mut self) -> (r: (Vec<InputEvent>, Vec<TapCommand>))
        requires
            old(self).wf(),
        ensures
            final(self).wf(),
            is_release_of(r.0@, old(self)@.keyboard.pressed.dom(), old(self)@.buttons),
            final(self)@.keyboard == released_keyboard(old(self)@.keyboard),
            final(self)@.buttons == Set::<u16>::empty(),
            final(self)@.anchor == None::<(i32, i32)>,
            spec_is_remote(old(self)@.pointer) ==> ({
                let (p, action) = spec_return_to_local(old(self)@.pointer);
                &&& final(self)@.pointer == p
                &&& action matches MotionAction::ReturnLocal { x, y } && r.1@ == seq![
                    TapCommand::RestoreCursorAssociation,
                    TapCommand::SetCursor { x, y },
                ]
            }),
            !spec_is_remote(old(self)@.pointer) ==> final(self)@.pointer == old(self)@.pointer
                && r.1@ == seq![TapCommand::RestoreCursorAssociation],
    {
        let events = self.release_remote();
        let position = self.pointer.force_local();
        self.cursor_lock.end();
        let mut commands: Vec<TapCommand> = Vec::new();
        commands.push(TapCommand::RestoreCursorAssociation);
        if let Some((x, y)) = position {
            commands.push(TapCommand::SetCursor { x, y });
        }
        (events, commands)
    }
}

/// What one tap event does: the state before and after, whether the event
/// is kept from macOS, the events sent and the cursor commands.
pub open spec fn tap_step(
    m: MacCaptureModel,
    event: TapEvent,
    screen: (i32, i32),
    m1: MacCaptureModel,
    consumed: bool,
    events: Seq<InputEvent>,
    commands: Seq<TapCommand>,
) -> bool {
    let remote = spec_is_remote(m.pointer);
    match event {
        TapEvent::MouseMoved { dx, dy, x, y, flags } => if remote {
            if dx == 0 && dy == 0 {
                m1 == m && consumed && events.len() == 0 && commands == pin_commands(m.anchor)
            } else {
                let (p1, act) = spec_observe_remote_motion(m.pointer, dx, dy, m.buttons.is_empty());
                consumed && match act {
                    MotionAction::MoveRemote { dx: mx, dy: my } => m1 == (MacCaptureModel { pointer: p1, ..m })
                        && events == seq![InputEvent::MouseDelta { dx: mx, dy: my }] && commands == pin_commands(m.anchor),
                    MotionAction::ReturnLocal { x: rx, y: ry } => m1 == (MacCaptureModel {
                        pointer: p1,
                        keyboard: released_keyboard(m.keyboard),
                        buttons: Set::empty(),
                        anchor: None,
                    }) && is_release_of(events, m.keyboard.pressed.dom(), m.buttons) && commands == seq![
                        TapCommand::RestoreCursorAssociation,
                        TapCommand::SetCursor { x: rx, y: ry },
                    ],
                    _ => m1 == (MacCaptureModel { pointer: p1, ..m }) && events.len() == 0 && commands.len() == 0,
                }
            }
        } else {
            let vs = spec_valid_size(screen);
            let p0 = RouterModel { local_size: vs, ..m.pointer };
            let (p1, act) = spec_observe_local_motion(p0, x, y);
            match act {
                MotionAction::EnterRemote { x: ex, y: ey } => {
                    let (k1, kev) = spec_sync_flags(m.keyboard, flags);
                    let a = (clamp_int(x as int, 0, vs.0 - 1) as i32, clamp_int(y as int, 0, vs.1 - 1) as i32);
                    &&& m1 == (MacCaptureModel { pointer: p1, keyboard: k1, anchor: Some(a), ..m })
                    &&& consumed
                    &&& events == seq![InputEvent::MouseEnter { x: ex, y: ey }] + kev
                    &&& commands == seq![TapCommand::SetCursor { x: a.0, y: a.1 }]
                },
                _ => m1 == (MacCaptureModel { pointer: p1, ..m }) && !consumed && events.len() == 0
                    && commands.len() == 0,
            }
        },
        TapEvent::MouseButton { button, down } => if remote {
            &&& m1 == (MacCaptureModel {
                buttons: if down {
                    m.buttons.insert(button_code(button))
                } else {
                    m.buttons.remove(button_code(button))
                },
                ..m
            })
            &&& consumed
            &&& events == seq![InputEvent::MouseButton { button, down }]
            &&& commands.len() == 0
        } else {
            m1 == (MacCaptureModel { pointer: spec_observe_local_button(m.pointer, down), ..m }) && !consumed
                && events.len() == 0 && commands.len() == 0
        },
        TapEvent::Scroll { horizontal, vertical } => m1 == m && commands.len() == 0 && if remote {
            consumed && events == seq![InputEvent::MouseWheel { horizontal, vertical }]
        } else {
            !consumed && events.len() == 0
        },
        TapEvent::KeyDown { keycode, repeat } => commands.len() == 0 && if remote {
            let (k1, kev) = spec_key_down(m.keyboard, keycode);
            m1 == (MacCaptureModel { keyboard: k1, ..m }) && consumed && events == kev
        } else {
            m1 == m && !consumed && events.len() == 0
        },
        TapEvent::KeyUp { keycode } => commands.len() == 0 && if remote {
            let (k1, kev) = spec_key_up(m.keyboard, keycode);
            m1 == (MacCaptureModel { keyboard: k1, ..m }) && consumed && events == kev
        } else {
            m1 == m && !consumed && events.len() == 0
        },
        TapEvent::FlagsChanged { keycode, flags } => commands.len() == 0 && if remote {
            let (k1, kev) = spec_flags_changed(m.keyboard, keycode, flags);
            m1 == (MacCaptureModel { keyboard: k1, ..m }) && consumed && events == kev
        } else {
            m1 == m && !consumed && events.len() == 0
        },
        TapEvent::Other => m1 == m && !consumed && events.len() == 0 && commands.len() == 0,
    }
}

} // verus!

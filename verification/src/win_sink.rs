use std::collections::HashSet;

use vstd::prelude::*;
use vstd::std_specs::iter::IteratorSpec;

use crate::arith::{clamp_int, sat_add_i32};
use crate::keymap::{decode_scancode, printable_vk_from_scancode, spec_printable_vk_from_scancode, windows_modifier_vk};
use crate::mac_capture::{button_code, code_button};
use crate::protocol::{InputEvent, KeyState, MouseButton};

verus! {

broadcast use vstd::std_specs::hash::group_hash_axioms;

/// One keyboard input for `SendInput`.
#[derive(Debug, Clone, Copy, PartialEq, Eq, Structural)]
pub enum KeyInput {
    /// By virtual key; `extended` marks it an extended key.
    Virtual { vk: u16, extended: bool, key_up: bool },
    /// By hardware scancode; `extended` marks it an extended key.
    Scan { scan: u16, extended: bool, key_up: bool },
}

/// What a mouse input for `SendInput` does.
#[derive(Debug, Clone, Copy, PartialEq, Eq, Structural)]
pub enum MouseFlag {
    Move,
    LeftDown,
    LeftUp,
    RightDown,
    RightUp,
    MiddleDown,
    MiddleUp,
    XDown,
    XUp,
    Wheel,
    HWheel,
}

/// What the Windows input sink does.
#[derive(Debug, Clone, Copy, PartialEq, Eq, Structural)]
pub enum WinAction {
    Key(KeyInput),
    Mouse { flag: MouseFlag, dx: i32, dy: i32, data: u32 },
    SetCursor { x: i32, y: i32 },
}

/// The first and second extra buttons, as `SendInput` names them.
pub const XBUTTON1_DATA: u32 = 1;
pub const XBUTTON2_DATA: u32 = 2;

/// How a protocol key is sent: the Windows keys by virtual key (extended),
/// printable keys by their virtual key, the rest by scancode.
pub open spec fn spec_key_input(scancode: u16, key_up: bool) -> KeyInput {
    if scancode == 347 {
        KeyInput::Virtual { vk: 0x5B, extended: true, key_up }
    } else if scancode == 348 {
        KeyInput::Virtual { vk: 0x5C, extended: true, key_up }
    } else if spec_printable_vk_from_scancode(scancode) is Some {
        KeyInput::Virtual { vk: spec_printable_vk_from_scancode(scancode).unwrap(), extended: false, key_up }
    } else if scancode >= 256 {
        KeyInput::Scan { scan: (scancode - 256) as u16, extended: true, key_up }
    } else {
        KeyInput::Scan { scan: scancode, extended: false, key_up }
    }
}

/// The keyboard input a protocol key goes out as.
pub fn key_input(scancode: u16, key_up: bool) -> (r: KeyInput)
    ensures
        r == spec_key_input(scancode, key_up),
{
    if let Some(vk) = windows_modifier_vk(scancode) {
        return KeyInput::Virtual { vk, extended: true, key_up };
    }
    if let Some(vk) = printable_vk_from_scancode(scancode) {
        return KeyInput::Virtual { vk, extended: false, key_up };
    }
    let (scan, extended) = decode_scancode(scancode);
    KeyInput::Scan { scan, extended, key_up }
}

/// The extra-button data: the fifth button is the second extra button,
/// any other the first.
pub open spec fn xbutton_data(id: u8) -> u32 {
    if id == 5 {
        XBUTTON2_DATA
    } else {
        XBUTTON1_DATA
    }
}

/// The mouse input a button press or release goes out as.
pub open spec fn spec_button_input(button: MouseButton, down: bool) -> (MouseFlag, u32) {
    match button {
        MouseButton::Left => (if down { MouseFlag::LeftDown } else { MouseFlag::LeftUp }, 0),
        MouseButton::Middle => (if down { MouseFlag::MiddleDown } else { MouseFlag::MiddleUp }, 0),
        MouseButton::Right => (if down { MouseFlag::RightDown } else { MouseFlag::RightUp }, 0),
        MouseButton::Extra(id) => (if down { MouseFlag::XDown } else { MouseFlag::XUp }, xbutton_data(id)),
    }
}

/// The mouse flag and data of a button press or release.
pub fn button_input(button: MouseButton, down: bool) -> (r: (MouseFlag, u32))
    ensures
        r == spec_button_input(button, down),
{
    match button {
        MouseButton::Left => (if down { MouseFlag::LeftDown } else { MouseFlag::LeftUp }, 0),
        MouseButton::Middle => (if down { MouseFlag::MiddleDown } else { MouseFlag::MiddleUp }, 0),
        MouseButton::Right => (if down { MouseFlag::RightDown } else { MouseFlag::RightUp }, 0),
        MouseButton::Extra(id) => (
            if down {
                MouseFlag::XDown
            } else {
                MouseFlag::XUp
            },
            if id == 5 {
                XBUTTON2_DATA
            } else {
                XBUTTON1_DATA
            },
        ),
    }
}

/// A wheel amount as the 32-bit mouse data: negative amounts in two's
/// complement.
pub open spec fn wheel_data(v: i16) -> u32 {
    if v < 0 {
        (v + 0x1_0000_0000) as u32
    } else {
        v as u32
    }
}

fn wheel_word(v: i16) -> (r: u32)
    ensures
        r == wheel_data(v),
{
    let w: i32 = v as i32;
    let r: u32 = w as u32;
    assert(r == wheel_data(v)) by (bit_vector)
        requires
            w == v as i32,
            r == w as u32,
    ;
    r
}

pub struct WinSinkModel {
    pub screen: (i32, i32),
    pub position: (i32, i32),
    pub keys: Set<u16>,
    pub buttons: Set<u16>,
    pub active: bool,
}

/// Applies protocol input to Windows through `SendInput`: while the pointer
/// is on this screen it moves and presses what the server sends, and
/// remembers what is held so that it can let go of it all.
pub struct WinSink {
    pressed_keys: HashSet<u16>,
    pressed_buttons: HashSet<u16>,
    mouse_position: (i32, i32),
    screen_size: (i32, i32),
    remote_active: bool,
}

impl View for WinSink {
    type V = WinSinkModel;

    closed spec fn view(&self) -> WinSinkModel {
        WinSinkModel {
            screen: self.screen_size,
            position: self.mouse_position,
            keys: self.pressed_keys@,
            buttons: self.pressed_buttons@,
            active: self.remote_active,
        }
    }
}

/// The screen has at least one pixel each way, the pointer is on it, and
/// the held buttons are button numbers.
pub open spec fn win_sink_wf(m: WinSinkModel) -> bool {
    &&& m.screen.0 >= 1
    &&& m.screen.1 >= 1
    &&& 0 <= m.position.0 < m.screen.0
    &&& 0 <= m.position.1 < m.screen.1
    &&& m.keys.finite()
    &&& m.buttons.finite()
    &&& forall|c: u16| #[trigger] m.buttons.contains(c) ==> c <= 258
}

/// A point held on a screen of this size.
pub open spec fn clamp_to_screen(p: (int, int), screen: (i32, i32)) -> (i32, i32) {
    (clamp_int(p.0, 0, screen.0 - 1) as i32, clamp_int(p.1, 0, screen.1 - 1) as i32)
}

/// Whether an action lets go of one of `keys`.
pub open spec fn releases_key(a: WinAction, keys: Set<u16>) -> bool {
    exists|k: u16| #[trigger] keys.contains(k) && a == WinAction::Key(spec_key_input(k, true))
}

/// The mouse input that lets go of a button held under this number.
pub open spec fn button_release(c: u16) -> WinAction {
    WinAction::Mouse {
        flag: spec_button_input(code_button(c), false).0,
        dx: 0,
        dy: 0,
        data: spec_button_input(code_button(c), false).1,
    }
}

/// Whether an action lets go of one of `buttons`.
pub open spec fn releases_button(a: WinAction, buttons: Set<u16>) -> bool {
    exists|c: u16| #[trigger] buttons.contains(c) && a == button_release(c)
}

/// Whether `actions` let go of every key in `keys`, then of every button
/// in `buttons`, each once.
pub open spec fn is_win_release(actions: Seq<WinAction>, keys: Set<u16>, buttons: Set<u16>) -> bool {
    &&& actions.len() == keys.len() + buttons.len()
    &&& forall|i: int| 0 <= i < keys.len() ==> releases_key(#[trigger] actions[i], keys)
    &&& forall|i: int| keys.len() <= i < actions.len() ==> releases_button(#[trigger] actions[i], buttons)
    &&& forall|k: u16| #[trigger] keys.contains(k) ==> exists|i: int| 0 <= i < keys.len() && actions[i]
        == WinAction::Key(spec_key_input(k, true))
    &&& forall|c: u16| #[trigger] buttons.contains(c) ==> exists|i: int| keys.len() <= i < actions.len()
        && actions[i] == button_release(c)
}

/// What an event other than a pointer entry does while the pointer is on
/// this screen (a button's new state is noted once it was sent).
pub open spec fn spec_win_apply(m: WinSinkModel, event: InputEvent) -> (WinSinkModel, Seq<WinAction>) {
    match event {
        InputEvent::Key { scancode, state } => match state {
            KeyState::Down => if m.keys.contains(scancode) {
                (m, seq![])
            } else {
                (WinSinkModel { keys: m.keys.insert(scancode), ..m }, seq![WinAction::Key(spec_key_input(scancode, false))])
            },
            KeyState::Up => (WinSinkModel { keys: m.keys.remove(scancode), ..m }, seq![WinAction::Key(spec_key_input(scancode, true))]),
            KeyState::Repeat => (m, seq![WinAction::Key(spec_key_input(scancode, false))]),
        },
        InputEvent::MouseDelta { dx, dy } => {
            let next = clamp_to_screen(
                (sat_add_i32(m.position.0 as int, dx as int) as int, sat_add_i32(m.position.1 as int, dy as int) as int),
                m.screen,
            );
            let mx = next.0 - m.position.0;
            let my = next.1 - m.position.1;
            (WinSinkModel { position: next, ..m }, if mx == 0 && my == 0 {
                seq![]
            } else {
                seq![WinAction::Mouse { flag: MouseFlag::Move, dx: mx as i32, dy: my as i32, data: 0 }]
            })
        },
        InputEvent::MouseButton { button, down } => (m, seq![WinAction::Mouse {
            flag: spec_button_input(button, down).0,
            dx: 0,
            dy: 0,
            data: spec_button_input(button, down).1,
        }]),
        InputEvent::MouseWheel { horizontal, vertical } => (m, (if vertical != 0 {
            seq![WinAction::Mouse { flag: MouseFlag::Wheel, dx: 0, dy: 0, data: wheel_data(vertical) }]
        } else {
            seq![]
        }) + (if horizontal != 0 {
            seq![WinAction::Mouse { flag: MouseFlag::HWheel, dx: 0, dy: 0, data: wheel_data(horizontal) }]
        } else {
            seq![]
        })),
        InputEvent::MouseEnter { .. } => (m, seq![]),
    }
}

/// A screen size from the system metrics: at least one pixel each way.
pub open spec fn metric_size(screen: (u32, u32)) -> (i32, i32) {
    (if screen.0 < 1 { 1i32 } else { screen.0 as i32 }, if screen.1 < 1 { 1i32 } else { screen.1 as i32 })
}

fn size_of_metrics(screen: (u32, u32)) -> (r: (i32, i32))
    requires
        screen.0 <= i32::MAX,
        screen.1 <= i32::MAX,
    ensures
        r == metric_size(screen),
{
    (if screen.0 < 1 { 1 } else { screen.0 as i32 }, if screen.1 < 1 { 1 } else { screen.1 as i32 })
}

fn clamp_point_i32(x: i32, y: i32, screen: (i32, i32)) -> (r: (i32, i32))
    requires
        screen.0 >= 1,
        screen.1 >= 1,
    ensures
        r == clamp_to_screen((x as int, y as int), screen),
{
    let mx = screen.0 - 1;
    let my = screen.1 - 1;
    (
        if x < 0 { 0 } else if x > mx { mx } else { x },
        if y < 0 { 0 } else if y > my { my } else { y },
    )
}

impl WinSink {
    /// A sink for a screen of this size (as the system metrics give it),
    /// the pointer where the system put it, or at the corner when that is
    /// unknown.
    pub fn new(screen: (u32, u32), cursor: Option<(i32, i32)>) -> (r: WinSink)
        requires
            screen.0 <= i32::MAX,
            screen.1 <= i32::MAX,
        ensures
            win_sink_wf(r@),
            r@.screen == metric_size(screen),
            r@.position == (match cursor {
                Some(p) => clamp_to_screen((p.0 as int, p.1 as int), metric_size(screen)),
                None => (0i32, 0i32),
            }),
            r@.keys == Set::<u16>::empty(),
            r@.buttons == Set::<u16>::empty(),
            !r@.active,
    {
        let size = size_of_metrics(screen);
        let position = match cursor {
            Some(p) => clamp_point_i32(p.0, p.1, size),
            None => (0, 0),
        };
        WinSink {
            pressed_keys: HashSet::new(),
            pressed_buttons: HashSet::new(),
            mouse_position: position,
            screen_size: size,
            remote_active: false,
        }
    }

    /// The screen size the sink works with.
    pub fn screen_size(&self) -> (r: (u32, u32))
        requires
            win_sink_wf(self@),
        ensures
            r.0 == self@.screen.0,
            r.1 == self@.screen.1,
    {
        (self.screen_size.0 as u32, self.screen_size.1 as u32)
    }

    /// Lets go of every key and button held.
    pub fn release_all(&mut self) -> (r: Vec<WinAction>)
        requires
            win_sink_wf(old(self)@),
        ensures
            win_sink_wf(final(self)@),
            final(self)@ == (WinSinkModel { keys: Set::empty(), buttons: Set::empty(), ..old(self)@ }),
            is_win_release(r@, old(self)@.keys, old(self)@.buttons),
    {
        let mut out: Vec<WinAction> = Vec::new();
        let ghost kk = vstd::std_specs::hash::spec_hash_keys_iter(&self.pressed_keys).remaining();
        for sc in it: self.pressed_keys.iter()
            invariant
                it.seq() == kk,
                out@.len() == it.index(),
                forall|i: int| 0 <= i < it.index() ==> out@[i] == WinAction::Key(spec_key_input(*it.seq()[i], true)),
        {
            let k = key_input(*sc, true);
            out.push(WinAction::Key(k));
        }
        let ghost nk = out@.len();
        let ghost kev = out@;
        let ghost bb = vstd::std_specs::hash::spec_hash_keys_iter(&self.pressed_buttons).remaining();
        for code in it: self.pressed_buttons.iter()
            invariant
                it.seq() == bb,
                out@.len() == nk + it.index(),
                out@.take(nk as int) == kev,
                forall|i: int| 0 <= i < it.index() ==> out@[nk + i] == button_release(*it.seq()[i]),
        {
            let ghost before = out@;
            let b = crate::mac_capture::button_of_code(*code);
            let (flag, data) = button_input(b, false);
            out.push(WinAction::Mouse { flag, dx: 0, dy: 0, data });
            assert(out@.take(nk as int) =~= before.take(nk as int));
        }
        proof {
            let keys = old(self)@.keys;
            let buttons = old(self)@.buttons;
            assert(kk.unref().to_set() == keys);
            assert(bb.unref().to_set() == buttons);
            assert(keys.len() == kk.unref().len()) by {
                kk.unref().unique_seq_to_set();
            }
            assert(buttons.len() == bb.unref().len()) by {
                bb.unref().unique_seq_to_set();
            }
            assert forall|i: int| 0 <= i < keys.len() implies releases_key(#[trigger] out@[i], keys) by {
                assert(out@[i] == out@.take(nk as int)[i]);
                let k = kk.unref()[i];
                assert(kk.unref().to_set().contains(k));
                assert(keys.contains(k));
            }
            assert forall|i: int| keys.len() <= i < out@.len() implies releases_button(#[trigger] out@[i], buttons) by {
                let j = i - nk;
                let c = bb.unref()[j];
                assert(bb.unref().to_set().contains(c));
                assert(buttons.contains(c));
            }
            assert forall|k: u16| #[trigger] keys.contains(k) implies exists|i: int| 0 <= i < keys.len() && out@[i]
                == WinAction::Key(spec_key_input(k, true)) by {
                assert(kk.unref().to_set().contains(k));
                let i = choose|i: int| 0 <= i < kk.unref().len() && kk.unref()[i] == k;
                assert(out@[i] == out@.take(nk as int)[i]);
            }
            assert forall|c: u16| #[trigger] buttons.contains(c) implies exists|i: int| keys.len() <= i < out@.len()
                && out@[i] == button_release(c) by {
                assert(bb.unref().to_set().contains(c));
                let j = choose|j: int| 0 <= j < bb.unref().len() && bb.unref()[j] == c;
                assert(out@[nk + j] == button_release(c));
            }
        }
        self.pressed_keys = HashSet::new();
        self.pressed_buttons = HashSet::new();
        out
    }

    /// The pointer enters this screen at `(x, y)`: anything still held from
    /// before is let go, the screen size is read again, and the cursor is
    /// put at the point held on the screen.
    pub fn mouse_enter(&mut self, x: i32, y: i32, screen: (u32, u32)) -> (r: Vec<WinAction>)
        requires
            win_sink_wf(old(self)@),
            screen.0 <= i32::MAX,
            screen.1 <= i32::MAX,
        ensures
            win_sink_wf(final(self)@),
            ({
                let size = metric_size(screen);
                let p = clamp_to_screen((x as int, y as int), size);
                let release_keys = if old(self)@.active { old(self)@.keys } else { Set::empty() };
                let release_buttons = if old(self)@.active { old(self)@.buttons } else { Set::empty() };
                &&& final(self)@ == (WinSinkModel {
                    active: true,
                    screen: size,
                    position: p,
                    keys: if old(self)@.active { Set::empty() } else { old(self)@.keys },
                    buttons: if old(self)@.active { Set::empty() } else { old(self)@.buttons },
                })
                &&& r@.len() == release_keys.len() + release_buttons.len() + 1
                &&& is_win_release(r@.drop_last(), release_keys, release_buttons)
                &&& r@.last() == (WinAction::SetCursor { x: p.0, y: p.1 })
            }),
    {
        let mut out: Vec<WinAction> = if self.remote_active {
            self.release_all()
        } else {
            let v: Vec<WinAction> = Vec::new();
            proof {
                assert(is_win_release(v@, Set::empty(), Set::empty()));
            }
            v
        };
        self.remote_active = true;
        self.screen_size = size_of_metrics(screen);
        self.mouse_position = clamp_point_i32(x, y, self.screen_size);
        let ghost before = out@;
        out.push(WinAction::SetCursor { x: self.mouse_position.0, y: self.mouse_position.1 });
        assert(out@.drop_last() =~= before);
        out
    }

    /// One protocol event other than a pointer entry; nothing happens while
    /// the pointer is not on this screen.
    pub fn apply(&mut self, event: InputEvent) -> (r: Vec<WinAction>)
        requires
            win_sink_wf(old(self)@),
            !(event is MouseEnter),
        ensures
            win_sink_wf(final(self)@),
            !old(self)@.active ==> final(self)@ == old(self)@ && r@.len() == 0,
            old(self)@.active ==> (final(self)@, r@) == spec_win_apply(old(self)@, event),
    {
        let mut out: Vec<WinAction> = Vec::new();
        if !self.remote_active {
            return out;
        }
        match event {
            InputEvent::Key { scancode, state } => {
                match state {
                    KeyState::Down => {
                        if self.pressed_keys.insert(scancode) {
                            out.push(WinAction::Key(key_input(scancode, false)));
                        } else {
                            assert(self.pressed_keys@ =~= old(self)@.keys);
                        }
                    },
                    KeyState::Up => {
                        self.pressed_keys.remove(&scancode);
                        out.push(WinAction::Key(key_input(scancode, true)));
                    },
                    KeyState::Repeat => {
                        out.push(WinAction::Key(key_input(scancode, false)));
                    },
                }
            },
            InputEvent::MouseDelta { dx, dy } => {
                let old_pos = self.mouse_position;
                let nx = crate::arith::sat_add(old_pos.0, dx);
                let ny = crate::arith::sat_add(old_pos.1, dy);
                let next = clamp_point_i32(nx, ny, self.screen_size);
                self.mouse_position = next;
                let mx = next.0 - old_pos.0;
                let my = next.1 - old_pos.1;
                if mx != 0 || my != 0 {
                    out.push(WinAction::Mouse { flag: MouseFlag::Move, dx: mx, dy: my, data: 0 });
                }
            },
            InputEvent::MouseButton { button, down } => {
                let (flag, data) = button_input(button, down);
                out.push(WinAction::Mouse { flag, dx: 0, dy: 0, data });
            },
            InputEvent::MouseWheel { horizontal, vertical } => {
                if vertical != 0 {
                    out.push(WinAction::Mouse { flag: MouseFlag::Wheel, dx: 0, dy: 0, data: wheel_word(vertical) });
                }
                if horizontal != 0 {
                    out.push(WinAction::Mouse { flag: MouseFlag::HWheel, dx: 0, dy: 0, data: wheel_word(horizontal) });
                }
                assert(out@ =~= spec_win_apply(old(self)@, event).1);
            },
            InputEvent::MouseEnter { .. } => {},
        }
        out
    }

    /// A button input was sent: the button is held or let go.
    pub fn button_sent(&mut self, button: MouseButton, down: bool)
        requires
            win_sink_wf(old(self)@),
        ensures
            win_sink_wf(final(self)@),
            final(self)@ == (WinSinkModel {
                buttons: if down {
                    old(self)@.buttons.insert(button_code(button))
                } else {
                    old(self)@.buttons.remove(button_code(button))
                },
                ..old(self)@
            }),
    {
        let code = crate::mac_capture::code_of_button(button);
        if down {
            self.pressed_buttons.insert(code);
        } else {
            self.pressed_buttons.remove(&code);
        }
    }
}

/// A key pressed and released while the pointer is on this screen leaves
/// the sink as it was, and goes out as one press and one release.
pub proof fn law_win_key_balanced(m: WinSinkModel, scancode: u16)
    requires
        win_sink_wf(m),
        !m.keys.contains(scancode),
    ensures
        ({
            let (m1, down) = spec_win_apply(m, InputEvent::Key { scancode, state: KeyState::Down });
            let (m2, up) = spec_win_apply(m1, InputEvent::Key { scancode, state: KeyState::Up });
            &&& m2 == m
            &&& down == seq![WinAction::Key(spec_key_input(scancode, false))]
            &&& up == seq![WinAction::Key(spec_key_input(scancode, true))]
        }),
{
    let (m1, _) = spec_win_apply(m, InputEvent::Key { scancode, state: KeyState::Down });
    assert(m1.keys.remove(scancode) =~= m.keys);
}

} // verus!

use std::collections::HashSet;

use vstd::prelude::*;
use vstd::std_specs::iter::IteratorSpec;

use crate::arith::sat_add_i32;
use crate::keymap::{clamp_point, scancode_to_linux_key, spec_clamp_point, spec_scancode_to_linux_key, spec_wheel_steps, wheel_steps};
use crate::mac_capture::{button_code, code_button};
use crate::protocol::{InputEvent, KeyState, MouseButton};

verus! {

broadcast use vstd::std_specs::hash::group_hash_axioms;

/// What the Linux input sink writes to the virtual device.
#[derive(Debug, Clone, Copy, PartialEq, Eq, Structural)]
pub enum UinputAction {
    MoveAbs { x: i32, y: i32 },
    MoveRel { dx: i32, dy: i32 },
    Button { button: MouseButton, down: bool },
    /// Wheel detents, horizontal and vertical.
    Scroll { horizontal: i32, vertical: i32 },
    /// A key: value 1 presses, 0 releases, 2 repeats.
    Key { keycode: u16, value: i32 },
}

pub struct LinuxSinkModel {
    pub screen: (u32, u32),
    pub position: (i32, i32),
    pub keys: Set<u16>,
    pub buttons: Set<u16>,
    pub active: bool,
}

/// Applies protocol input to a Linux virtual input device: while the
/// pointer is on this screen it moves and presses what the server sends,
/// and remembers what is held so that it can let go of it all.
pub struct LinuxSink {
    screen: (u32, u32),
    position: (i32, i32),
    pressed_keys: HashSet<u16>,
    pressed_buttons: HashSet<u16>,
    active: bool,
}

impl View for LinuxSink {
    type V = LinuxSinkModel;

    closed spec fn view(&self) -> LinuxSinkModel {
        LinuxSinkModel {
            screen: self.screen,
            position: self.position,
            keys: self.pressed_keys@,
            buttons: self.pressed_buttons@,
            active: self.active,
        }
    }
}

/// The screen fits 32-bit coordinates and the held buttons are button
/// numbers.
pub open spec fn linux_sink_wf(m: LinuxSinkModel) -> bool {
    &&& m.screen.0 <= 0x8000_0000
    &&& m.screen.1 <= 0x8000_0000
    &&& m.keys.finite()
    &&& m.buttons.finite()
    &&& forall|c: u16| #[trigger] m.buttons.contains(c) ==> c <= 258
}

/// Whether `actions` let go of every key in `keys`, then of every button
/// in `buttons`, each once.
pub open spec fn is_uinput_release(actions: Seq<UinputAction>, keys: Set<u16>, buttons: Set<u16>) -> bool {
    &&& actions.len() == keys.len() + buttons.len()
    &&& forall|i: int| 0 <= i < keys.len() ==> ((#[trigger] actions[i]) matches UinputAction::Key { keycode, value }
        && value == 0 && keys.contains(keycode))
    &&& forall|i: int| keys.len() <= i < actions.len() ==> ((#[trigger] actions[i]) matches UinputAction::Button { button, down }
        && !down && buttons.contains(button_code(button)))
    &&& forall|k: u16| #[trigger] keys.contains(k) ==> exists|i: int| 0 <= i < keys.len() && actions[i] == (UinputAction::Key { keycode: k, value: 0 })
    &&& forall|c: u16| #[trigger] buttons.contains(c) ==> exists|i: int| keys.len() <= i < actions.len() && actions[i] == (UinputAction::Button { button: code_button(c), down: false })
}

/// What an event other than a pointer entry does while the pointer is on
/// this screen.
pub open spec fn spec_linux_apply(m: LinuxSinkModel, event: InputEvent) -> (LinuxSinkModel, Seq<UinputAction>) {
    match event {
        InputEvent::MouseDelta { dx, dy } => (LinuxSinkModel {
            position: spec_clamp_point(
                sat_add_i32(m.position.0 as int, dx as int),
                sat_add_i32(m.position.1 as int, dy as int),
                m.screen,
            ),
            ..m
        }, seq![UinputAction::MoveRel { dx, dy }]),
        InputEvent::MouseButton { button, down } => (LinuxSinkModel {
            buttons: if down { m.buttons.insert(button_code(button)) } else { m.buttons.remove(button_code(button)) },
            ..m
        }, seq![UinputAction::Button { button, down }]),
        InputEvent::MouseWheel { horizontal, vertical } => (m, seq![UinputAction::Scroll {
            horizontal: spec_wheel_steps(horizontal),
            vertical: spec_wheel_steps(vertical),
        }]),
        InputEvent::Key { scancode, state } => match spec_scancode_to_linux_key(scancode) {
            None => (m, seq![]),
            Some(kc) => match state {
                KeyState::Down => if m.keys.contains(kc) {
                    (m, seq![])
                } else {
                    (LinuxSinkModel { keys: m.keys.insert(kc), ..m }, seq![UinputAction::Key { keycode: kc, value: 1 }])
                },
                KeyState::Up => (LinuxSinkModel { keys: m.keys.remove(kc), ..m }, seq![UinputAction::Key { keycode: kc, value: 0 }]),
                KeyState::Repeat => (m, seq![UinputAction::Key { keycode: kc, value: 2 }]),
            },
        },
        InputEvent::MouseEnter { .. } => (m, seq![]),
    }
}

impl LinuxSink {
    /// A sink for a screen of this size, the pointer elsewhere.
    pub fn new(screen: (u32, u32)) -> (r: LinuxSink)
        requires
            screen.0 <= 0x8000_0000,
            screen.1 <= 0x8000_0000,
        ensures
            linux_sink_wf(r@),
            r@.screen == screen,
            r@.position == (0i32, 0i32),
            r@.keys == Set::<u16>::empty(),
            r@.buttons == Set::<u16>::empty(),
            !r@.active,
    {
        LinuxSink { screen, position: (0, 0), pressed_keys: HashSet::new(), pressed_buttons: HashSet::new(), active: false }
    }

    pub fn screen_size(&self) -> (r: (u32, u32))
        ensures
            r == self@.screen,
    {
        self.screen
    }

    /// Lets go of every key and button held.
    pub fn release_all(&mut self) -> (r: Vec<UinputAction>)
        requires
            linux_sink_wf(old(self)@),
        ensures
            linux_sink_wf(final(self)@),
            final(self)@ == (LinuxSinkModel { keys: Set::empty(), buttons: Set::empty(), ..old(self)@ }),
            is_uinput_release(r@, old(self)@.keys, old(self)@.buttons),
    {
        let mut out: Vec<UinputAction> = Vec::new();
        let ghost kk = vstd::std_specs::hash::spec_hash_keys_iter(&self.pressed_keys).remaining();
        for keycode in it: self.pressed_keys.iter()
            invariant
                it.seq() == kk,
                out@.len() == it.index(),
                forall|i: int| 0 <= i < it.index() ==> out@[i] == (UinputAction::Key { keycode: *it.seq()[i], value: 0 }),
        {
            out.push(UinputAction::Key { keycode: *keycode, value: 0 });
        }
        let ghost nk = out@.len();
        let ghost kev = out@;
        let ghost bb = vstd::std_specs::hash::spec_hash_keys_iter(&self.pressed_buttons).remaining();
        for code in it: self.pressed_buttons.iter()
            invariant
                it.seq() == bb,
                out@.len() == nk + it.index(),
                out@.take(nk as int) == kev,
                forall|i: int| 0 <= i < it.index() ==> out@[nk + i] == (UinputAction::Button { button: code_button(*it.seq()[i]), down: false }),
        {
            let ghost before = out@;
            let b = crate::mac_capture::button_of_code(*code);
            out.push(UinputAction::Button { button: b, down: false });
            assert(out@.take(nk as int) =~= before.take(nk as int));
        }
        proof {
            let keys = old(self)@.keys;
            let buttons = old(self)@.buttons;
            assert(kk.unref().to_set() == keys);
            assert(bb.unref().to_set() == buttons);
            assert(keys.len() == kk.unref().len()) by {
                kk.unref().unique_seq_to_set();
            }
            assert(buttons.len() == bb.unref().len()) by {
                bb.unref().unique_seq_to_set();
            }
            assert forall|i: int| 0 <= i < keys.len() implies ((#[trigger] out@[i]) matches UinputAction::Key { keycode, value }
                && value == 0 && keys.contains(keycode)) by {
                assert(out@[i] == out@.take(nk as int)[i]);
                assert(kk.unref().to_set().contains(kk.unref()[i]));
            }
            assert forall|i: int| keys.len() <= i < out@.len() implies ((#[trigger] out@[i]) matches UinputAction::Button { button, down }
                && !down && buttons.contains(button_code(button))) by {
                let j = i - nk;
                let c = bb.unref()[j];
                assert(bb.unref().to_set().contains(c));
                assert(buttons.contains(c));
            }
            assert forall|k: u16| #[trigger] keys.contains(k) implies exists|i: int| 0 <= i < keys.len() && out@[i] == (UinputAction::Key { keycode: k, value: 0 }) by {
                assert(kk.unref().to_set().contains(k));
                let i = choose|i: int| 0 <= i < kk.unref().len() && kk.unref()[i] == k;
                assert(out@[i] == out@.take(nk as int)[i]);
            }
            assert forall|c: u16| #[trigger] buttons.contains(c) implies exists|i: int| keys.len() <= i < out@.len() && out@[i] == (UinputAction::Button { button: code_button(c), down: false }) by {
                assert(bb.unref().to_set().contains(c));
                let j = choose|j: int| 0 <= j < bb.unref().len() && bb.unref()[j] == c;
                assert(out@[nk + j] == (UinputAction::Button { button: code_button(c), down: false }));
            }
        }
        self.pressed_keys = HashSet::new();
        self.pressed_buttons = HashSet::new();
        out
    }

    /// The pointer enters this screen at `(x, y)`: anything still held from
    /// before is let go, and the pointer is put there, held on the screen.
    pub fn mouse_enter(&mut self, x: i32, y: i32) -> (r: Vec<UinputAction>)
        requires
            linux_sink_wf(old(self)@),
        ensures
            linux_sink_wf(final(self)@),
            ({
                let p = spec_clamp_point(x, y, old(self)@.screen);
                let release_keys = if old(self)@.active { old(self)@.keys } else { Set::empty() };
                let release_buttons = if old(self)@.active { old(self)@.buttons } else { Set::empty() };
                &&& final(self)@ == (LinuxSinkModel {
                    active: true,
                    position: p,
                    keys: if old(self)@.active { Set::empty() } else { old(self)@.keys },
                    buttons: if old(self)@.active { Set::empty() } else { old(self)@.buttons },
                    ..old(self)@
                })
                &&& r@.len() == release_keys.len() + release_buttons.len() + 1
                &&& is_uinput_release(r@.drop_last(), release_keys, release_buttons)
                &&& r@.last() == (UinputAction::MoveAbs { x: p.0, y: p.1 })
            }),
    {
        let mut out: Vec<UinputAction> = if self.active {
            self.release_all()
        } else {
            let v: Vec<UinputAction> = Vec::new();
            proof {
                assert(is_uinput_release(v@, Set::empty(), Set::empty()));
            }
            v
        };
        self.active = true;
        self.position = clamp_point(x, y, self.screen);
        let ghost before = out@;
        out.push(UinputAction::MoveAbs { x: self.position.0, y: self.position.1 });
        assert(out@.drop_last() =~= before);
        out
    }

    /// The pointer leaves this screen: everything held is let go.
    pub fn mouse_leave(&mut self) -> (r: Vec<UinputAction>)
        requires
            linux_sink_wf(old(self)@),
        ensures
            linux_sink_wf(final(self)@),
            final(self)@ == (LinuxSinkModel { keys: Set::empty(), buttons: Set::empty(), active: false, ..old(self)@ }),
            is_uinput_release(r@, old(self)@.keys, old(self)@.buttons),
    {
        let out = self.release_all();
        self.active = false;
        out
    }

    /// One protocol event: a pointer entry as `mouse_enter`; any other
    /// event only while the pointer is on this screen.
    pub fn apply(&mut self, event: InputEvent) -> (r: Vec<UinputAction>)
        requires
            linux_sink_wf(old(self)@),
            !(event is MouseEnter),
        ensures
            linux_sink_wf(final(self)@),
            !old(self)@.active ==> final(self)@ == old(self)@ && r@.len() == 0,
            old(self)@.active ==> (final(self)@, r@) == spec_linux_apply(old(self)@, event),
    {
        let mut out: Vec<UinputAction> = Vec::new();
        if !self.active {
            return out;
        }
        match event {
            InputEvent::MouseDelta { dx, dy } => {
                let nx = crate::arith::sat_add(self.position.0, dx);
                let ny = crate::arith::sat_add(self.position.1, dy);
                self.position = clamp_point(nx, ny, self.screen);
                out.push(UinputAction::MoveRel { dx, dy });
            },
            InputEvent::MouseButton { button, down } => {
                out.push(UinputAction::Button { button, down });
                let code = crate::mac_capture::code_of_button(button);
                if down {
                    self.pressed_buttons.insert(code);
                } else {
                    self.pressed_buttons.remove(&code);
                }
            },
            InputEvent::MouseWheel { horizontal, vertical } => {
                out.push(UinputAction::Scroll { horizontal: wheel_steps(horizontal), vertical: wheel_steps(vertical) });
            },
            InputEvent::Key { scancode, state } => {
                let kc = match scancode_to_linux_key(scancode) {
                    Some(kc) => kc,
                    None => return out,
                };
                match state {
                    KeyState::Down => {
                        if self.pressed_keys.insert(kc) {
                            out.push(UinputAction::Key { keycode: kc, value: 1 });
                        } else {
                            assert(self.pressed_keys@ =~= old(self)@.keys);
                        }
                    },
                    KeyState::Up => {
                        self.pressed_keys.remove(&kc);
                        out.push(UinputAction::Key { keycode: kc, value: 0 });
                    },
                    KeyState::Repeat => {
                        out.push(UinputAction::Key { keycode: kc, value: 2 });
                    },
                }
            },
            InputEvent::MouseEnter { .. } => {},
        }
        out
    }
}

/// A key pressed and released while the pointer is on this screen leaves
/// the sink as it was, and goes out as one press and one release.
pub proof fn law_linux_sink_key_balanced(m: LinuxSinkModel, scancode: u16)
    requires
        linux_sink_wf(m),
        spec_scancode_to_linux_key(scancode) is Some,
        !m.keys.contains(spec_scancode_to_linux_key(scancode).unwrap()),
    ensures
        ({
            let kc = spec_scancode_to_linux_key(scancode).unwrap();
            let (m1, down) = spec_linux_apply(m, InputEvent::Key { scancode, state: KeyState::Down });
            let (m2, up) = spec_linux_apply(m1, InputEvent::Key { scancode, state: KeyState::Up });
            &&& m2 == m
            &&& down == seq![UinputAction::Key { keycode: kc, value: 1 }]
            &&& up == seq![UinputAction::Key { keycode: kc, value: 0 }]
        }),
{
    let kc = spec_scancode_to_linux_key(scancode).unwrap();
    let (m1, _) = spec_linux_apply(m, InputEvent::Key { scancode, state: KeyState::Down });
    assert(m1.keys.remove(kc) =~= m.keys);
}

} // verus!

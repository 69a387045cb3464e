use std::collections::HashSet;

use vstd::prelude::*;
use vstd::std_specs::iter::IteratorSpec;

use crate::arith::clamp_int;
use crate::keymap::{
    flags_for_pressed_keys, is_letter_keycode, is_shift_scancode, scancode_to_macos_key,
    spec_flags_for_pressed_keys, spec_is_letter_keycode, spec_scancode_to_macos_key, MouseButtons,
    COMMAND_KEYCODE, CONTROL_KEYCODE, FLAG_ALPHA_SHIFT, FLAG_COMMAND, FLAG_CONTROL, FLAG_SHIFT,
    LEFT_SHIFT_KEYCODE, LEFT_SHIFT_SCANCODE, NATIVE_BUTTON_CENTER, NATIVE_BUTTON_LEFT,
    NATIVE_BUTTON_RIGHT, RIGHT_SHIFT_SCANCODE,
};
use crate::protocol::{KeyState, MouseButton};

verus! {

broadcast use vstd::std_specs::hash::group_hash_axioms;

pub const PRINT_SCREEN_SCANCODE: u16 = 311;
pub const CAPS_LOCK_SCANCODE: u16 = 58;
pub const CAPS_LOCK_KEYCODE: u16 = 57;
pub const BACKSPACE_KEYCODE: u16 = 51;
pub const SPACE_KEYCODE: u16 = 49;
pub const NUMBER_4_KEYCODE: u16 = 21;
/// Milliseconds between backspace repeats at first.
pub const BACKSPACE_INITIAL_REPEAT_MS: u64 = 60;
/// Milliseconds between backspace repeats once it has been held a while.
pub const BACKSPACE_ACCEL_REPEAT_MS: u64 = 45;
/// Milliseconds backspace is held before it repeats faster.
pub const BACKSPACE_ACCEL_DELAY_MS: u64 = 3000;
/// Milliseconds within which a second input-source switch is ignored.
pub const INPUT_SOURCE_TOGGLE_DEBOUNCE_MS: u64 = 180;
/// Milliseconds within which a second click makes a double click.
pub const DOUBLE_CLICK_WINDOW_MS: u64 = 500;
/// How far apart (squared, in pixels) two clicks of a double click may be.
pub const DOUBLE_CLICK_DISTANCE_SQUARED: i64 = 25;

pub const NATIVE_MOUSE_MOVED: u8 = 1;
pub const NATIVE_MOUSE_LEFT_DOWN: u8 = 2;
pub const NATIVE_MOUSE_LEFT_UP: u8 = 3;
pub const NATIVE_MOUSE_RIGHT_DOWN: u8 = 4;
pub const NATIVE_MOUSE_RIGHT_UP: u8 = 5;
pub const NATIVE_MOUSE_OTHER_DOWN: u8 = 6;
pub const NATIVE_MOUSE_OTHER_UP: u8 = 7;

/// What the macOS input sink asks the system to do.
#[derive(Debug, Clone, Copy, PartialEq, Eq, Structural)]
pub enum MacAction {
    /// Post a key event with these modifier flags.
    Key { keycode: u16, down: bool, flags: u64, autorepeat: bool },
    /// Post a mouse event at the pointer position.
    Mouse { event_type: u8, button: u8, x: i32, y: i32, click_count: i64, dx: i32, dy: i32 },
    /// Switch to the next keyboard input source.
    CycleInputSource,
}

/// The last click, to tell double clicks.
#[derive(Debug, Clone, Copy, PartialEq, Eq, Structural)]
pub struct ClickRecord {
    pub button: u8,
    pub x: i32,
    pub y: i32,
    pub at_ms: u64,
    pub count: i64,
}

/// The state of the macOS input sink.
pub struct MacSinkModel {
    pub pressed: Set<u16>,
    pub buttons: MouseButtons,
    pub screen: (i32, i32),
    pub position: (i32, i32),
    pub last_click: Option<ClickRecord>,
    pub shift_candidate: Option<u16>,
    pub caps_lock: bool,
    pub last_toggle_ms: Option<u64>,
    pub last_backspace_ms: Option<u64>,
    pub backspace_since_ms: Option<u64>,
}

/// Turns protocol input into macOS key and mouse events: Print Screen
/// takes a screenshot, Caps Lock is kept here, a Shift tapped alone
/// switches the input source, and backspace repeats at a steady pace.
pub struct MacInputSink {
    pressed: HashSet<u16>,
    buttons: MouseButtons,
    screen: (i32, i32),
    position: (i32, i32),
    last_click: Option<ClickRecord>,
    shift_candidate: Option<u16>,
    caps_lock: bool,
    last_toggle_ms: Option<u64>,
    last_backspace_ms: Option<u64>,
    backspace_since_ms: Option<u64>,
}

impl View for MacInputSink {
    type V = MacSinkModel;

    closed spec fn view(&self) -> MacSinkModel {
        MacSinkModel {
            pressed: self.pressed@,
            buttons: self.buttons,
            screen: self.screen,
            position: self.position,
            last_click: self.last_click,
            shift_candidate: self.shift_candidate,
            caps_lock: self.caps_lock,
            last_toggle_ms: self.last_toggle_ms,
            last_backspace_ms: self.last_backspace_ms,
            backspace_since_ms: self.backspace_since_ms,
        }
    }
}

/// The screen is at least one pixel each way and the pointer is on it.
pub open spec fn mac_wf(m: MacSinkModel) -> bool {
    &&& m.screen.0 >= 1
    &&& m.screen.1 >= 1
    &&& 0 <= m.position.0 < m.screen.0
    &&& 0 <= m.position.1 < m.screen.1
    &&& (m.last_click matches Some(c) ==> 1 <= c.count <= 2)
}

/// The flags a key is posted with: the held modifiers; with Caps Lock on,
/// also alpha-shift, and Shift flipped for letters.
pub open spec fn spec_flags_for_key(pressed: Set<u16>, caps: bool, keycode: u16) -> u64 {
    let f = spec_flags_for_pressed_keys(pressed);
    if !caps {
        f
    } else {
        let g = f | FLAG_ALPHA_SHIFT;
        if spec_is_letter_keycode(keycode) {
            if g & FLAG_SHIFT == FLAG_SHIFT {
                g & !FLAG_SHIFT
            } else {
                g | FLAG_SHIFT
            }
        } else {
            g
        }
    }
}

pub open spec fn key_action(keycode: u16, down: bool, flags: u64) -> MacAction {
    MacAction::Key { keycode, down, flags, autorepeat: false }
}

/// The key events of the screenshot shortcut, Command-Control-Shift-4.
pub open spec fn screenshot_actions() -> Seq<MacAction> {
    let c = FLAG_COMMAND;
    let cc = FLAG_COMMAND | FLAG_CONTROL;
    let full = cc | FLAG_SHIFT;
    seq![
        key_action(COMMAND_KEYCODE, true, c),
        key_action(CONTROL_KEYCODE, true, cc),
        key_action(LEFT_SHIFT_KEYCODE, true, full),
        key_action(NUMBER_4_KEYCODE, true, full),
        key_action(NUMBER_4_KEYCODE, false, full),
        key_action(LEFT_SHIFT_KEYCODE, false, cc),
        key_action(CONTROL_KEYCODE, false, c),
        key_action(COMMAND_KEYCODE, false, 0),
    ]
}

/// The key events of the shortcut that switches input source,
/// Control-Space.
pub open spec fn input_source_hotkey_actions() -> Seq<MacAction> {
    seq![
        key_action(CONTROL_KEYCODE, true, FLAG_CONTROL),
        key_action(SPACE_KEYCODE, true, FLAG_CONTROL),
        key_action(SPACE_KEYCODE, false, FLAG_CONTROL),
        key_action(CONTROL_KEYCODE, false, 0),
    ]
}

/// Whether an input-source switch now comes too soon after the last one.
pub open spec fn toggle_too_soon(last: Option<u64>, now: u64) -> bool {
    last matches Some(l) && (if now >= l { now - l } else { 0 }) < INPUT_SOURCE_TOGGLE_DEBOUNCE_MS
}

/// Whether a backspace repeat is due now, and the repeat time after it.
pub open spec fn spec_backspace_due(since: Option<u64>, last: Option<u64>, now: u64) -> bool {
    let held = match since {
        Some(s) => if now >= s { now - s } else { 0 },
        None => 0,
    };
    let interval = if held >= BACKSPACE_ACCEL_DELAY_MS {
        BACKSPACE_ACCEL_REPEAT_MS
    } else {
        BACKSPACE_INITIAL_REPEAT_MS
    };
    !(last matches Some(l) && (if now >= l { now - l } else { 0 }) < interval)
}

/// The model after posting `keycode` down if it was not held, and the
/// events posted.
pub open spec fn press(m: MacSinkModel, keycode: u16) -> (MacSinkModel, Seq<MacAction>) {
    if m.pressed.contains(keycode) {
        (m, seq![])
    } else {
        let m1 = MacSinkModel { pressed: m.pressed.insert(keycode), ..m };
        (m1, seq![key_action(keycode, true, spec_flags_for_key(m1.pressed, m1.caps_lock, keycode))])
    }
}

/// A held Shift that was not yet sent (it might have been a tap) is sent.
pub open spec fn flush_shift(m: MacSinkModel) -> (MacSinkModel, Seq<MacAction>) {
    match m.shift_candidate {
        Some(sc) => {
            let m1 = MacSinkModel { shift_candidate: None, ..m };
            match spec_scancode_to_macos_key(sc) {
                Some(kc) => press(m1, kc),
                None => (m1, seq![]),
            }
        },
        None => (m, seq![]),
    }
}

/// What one protocol key event does.
pub open spec fn spec_mac_key(m: MacSinkModel, scancode: u16, state: KeyState, now: u64) -> (
    MacSinkModel,
    Seq<MacAction>,
) {
    if scancode == PRINT_SCREEN_SCANCODE {
        (m, if state == KeyState::Down {
            screenshot_actions()
        } else {
            seq![]
        })
    } else if scancode == CAPS_LOCK_SCANCODE {
        if state == KeyState::Down {
            let caps = !m.caps_lock;
            let flags = if caps {
                FLAG_ALPHA_SHIFT
            } else {
                0
            };
            (MacSinkModel { caps_lock: caps, ..m }, seq![
                key_action(CAPS_LOCK_KEYCODE, true, flags),
                key_action(CAPS_LOCK_KEYCODE, false, flags),
            ])
        } else {
            (m, seq![])
        }
    } else if (scancode == LEFT_SHIFT_SCANCODE || scancode == RIGHT_SHIFT_SCANCODE) && state
        == KeyState::Down {
        (MacSinkModel { shift_candidate: Some(scancode), ..m }, seq![])
    } else if (scancode == LEFT_SHIFT_SCANCODE || scancode == RIGHT_SHIFT_SCANCODE) && state
        == KeyState::Repeat && m.shift_candidate == Some(scancode) {
        (m, seq![])
    } else if (scancode == LEFT_SHIFT_SCANCODE || scancode == RIGHT_SHIFT_SCANCODE) && state
        == KeyState::Up && m.shift_candidate == Some(scancode) {
        (MacSinkModel { shift_candidate: None, ..m }, if toggle_too_soon(m.last_toggle_ms, now) {
            seq![]
        } else {
            seq![MacAction::CycleInputSource]
        })
    } else {
        let (m1, a1) = if state != KeyState::Up {
            flush_shift(m)
        } else {
            (m, seq![])
        };
        match spec_scancode_to_macos_key(scancode) {
            None => (m1, a1),
            Some(kc) => match state {
                KeyState::Down => {
                    let m2 = if kc == BACKSPACE_KEYCODE {
                        MacSinkModel {
                            last_backspace_ms: Some(now),
                            backspace_since_ms: Some(now),
                            ..m1
                        }
                    } else {
                        m1
                    };
                    let (m3, a3) = press(m2, kc);
                    (m3, a1 + a3)
                },
                KeyState::Up => {
                    let m2 = if kc == BACKSPACE_KEYCODE {
                        MacSinkModel { last_backspace_ms: None, backspace_since_ms: None, ..m1 }
                    } else {
                        m1
                    };
                    let m3 = MacSinkModel { pressed: m2.pressed.remove(kc), ..m2 };
                    (m3, a1 + seq![key_action(kc, false, spec_flags_for_key(m3.pressed, m3.caps_lock, kc))])
                },
                KeyState::Repeat => {
                    if kc == BACKSPACE_KEYCODE && !spec_backspace_due(
                        m1.backspace_since_ms,
                        m1.last_backspace_ms,
                        now,
                    ) {
                        (m1, a1)
                    } else {
                        let m2 = if kc == BACKSPACE_KEYCODE {
                            MacSinkModel { last_backspace_ms: Some(now), ..m1 }
                        } else {
                            m1
                        };
                        if m2.pressed.contains(kc) {
                            (m2, a1 + seq![MacAction::Key {
                                keycode: kc,
                                down: true,
                                flags: spec_flags_for_key(m2.pressed, m2.caps_lock, kc),
                                autorepeat: true,
                            }])
                        } else {
                            let (m3, a3) = press(m2, kc);
                            (m3, a1 + a3)
                        }
                    }
                },
            },
        }
    }
}

impl MacInputSink {
    /// A sink for a screen of this size, the pointer at its corner.
    pub fn new(screen: (u32, u32)) -> (r: MacInputSink)
        requires
            screen.0 <= i32::MAX,
            screen.1 <= i32::MAX,
        ensures
            mac_wf(r@),
            r@.pressed == Set::<u16>::empty(),
            r@.buttons == (MouseButtons { left: false, right: false, other: false }),
            r@.screen == ((if screen.0 < 1 { 1 } else { screen.0 }) as i32, (if screen.1 < 1 { 1 } else { screen.1 }) as i32),
            r@.position == (0i32, 0i32),
            r@.last_click == None::<ClickRecord>,
            r@.shift_candidate == None::<u16>,
            !r@.caps_lock,
            r@.last_toggle_ms == None::<u64>,
            r@.last_backspace_ms == None::<u64>,
            r@.backspace_since_ms == None::<u64>,
    {
        let w: i32 = if screen.0 < 1 { 1 } else { screen.0 as i32 };
        let h: i32 = if screen.1 < 1 { 1 } else { screen.1 as i32 };
        MacInputSink {
            pressed: HashSet::new(),
            buttons: MouseButtons { left: false, right: false, other: false },
            screen: (w, h),
            position: (0, 0),
            last_click: None,
            shift_candidate: None,
            caps_lock: false,
            last_toggle_ms: None,
            last_backspace_ms: None,
            backspace_since_ms: None,
        }
    }

    fn flags_for_key(&self, keycode: u16) -> (r: u64)
        ensures
            r == spec_flags_for_key(self@.pressed, self@.caps_lock, keycode),
    {
        let f = flags_for_pressed_keys(&self.pressed).0;
        if !self.caps_lock {
            return f;
        }
        let g = f | FLAG_ALPHA_SHIFT;
        if is_letter_keycode(keycode) {
            if g & FLAG_SHIFT == FLAG_SHIFT {
                g & !FLAG_SHIFT
            } else {
                g | FLAG_SHIFT
            }
        } else {
            g
        }
    }

    fn press(&mut self, keycode: u16, out: &mut Vec<MacAction>)
        ensures
            ({
                let (m, a) = press(old(self)@, keycode);
                final(self)@ == m && final(out)@ == old(out)@ + a
            }),
    {
        if self.pressed.insert(keycode) {
            let flags = self.flags_for_key(keycode);
            out.push(MacAction::Key { keycode, down: true, flags, autorepeat: false });
            assert(out@ =~= old(out)@ + seq![key_action(keycode, true, flags)]);
        } else {
            assert(self.pressed@ =~= old(self)@.pressed);
            assert(old(out)@ + Seq::<MacAction>::empty() =~= out@);
        }
    }

    fn push_key(out: &mut Vec<MacAction>, keycode: u16, down: bool, flags: u64)
        ensures
            final(out)@ == old(out)@.push(key_action(keycode, down, flags)),
    {
        out.push(MacAction::Key { keycode, down, flags, autorepeat: false });
    }

    /// The events of one protocol key event. `now_ms` is the time it is
    /// applied at, in milliseconds.
    pub fn key(&mut self, scancode: u16, state: KeyState, now_ms: u64) -> (r: Vec<MacAction>)
        requires
            mac_wf(old(self)@),
        ensures
            mac_wf(final(self)@),
            (final(self)@, r@) == spec_mac_key(old(self)@, scancode, state, now_ms),
    {
        let mut out: Vec<MacAction> = Vec::new();
        if scancode == PRINT_SCREEN_SCANCODE {
            if state == KeyState::Down {
                let c = FLAG_COMMAND;
                let cc = FLAG_COMMAND | FLAG_CONTROL;
                let full = cc | FLAG_SHIFT;
                Self::push_key(&mut out, COMMAND_KEYCODE, true, c);
                Self::push_key(&mut out, CONTROL_KEYCODE, true, cc);
                Self::push_key(&mut out, LEFT_SHIFT_KEYCODE, true, full);
                Self::push_key(&mut out, NUMBER_4_KEYCODE, true, full);
                Self::push_key(&mut out, NUMBER_4_KEYCODE, false, full);
                Self::push_key(&mut out, LEFT_SHIFT_KEYCODE, false, cc);
                Self::push_key(&mut out, CONTROL_KEYCODE, false, c);
                Self::push_key(&mut out, COMMAND_KEYCODE, false, 0);
                assert(out@ =~= screenshot_actions());
            } else {
                assert(out@ =~= Seq::<MacAction>::empty());
            }
            return out;
        }
        if scancode == CAPS_LOCK_SCANCODE {
            if state == KeyState::Down {
                self.caps_lock = !self.caps_lock;
                let flags: u64 = if self.caps_lock {
                    FLAG_ALPHA_SHIFT
                } else {
                    0
                };
                Self::push_key(&mut out, CAPS_LOCK_KEYCODE, true, flags);
                Self::push_key(&mut out, CAPS_LOCK_KEYCODE, false, flags);
            }
            return out;
        }
        if is_shift_scancode(scancode) {
            match state {
                KeyState::Down => {
                    self.shift_candidate = Some(scancode);
                    return out;
                },
                KeyState::Repeat => {
                    if self.shift_candidate == Some(scancode) {
                        return out;
                    }
                },
                KeyState::Up => {
                    if self.shift_candidate == Some(scancode) {
                        self.shift_candidate = None;
                        let too_soon = match self.last_toggle_ms {
                            Some(last) => {
                                let since: u64 = if now_ms >= last {
                                    now_ms - last
                                } else {
                                    0
                                };
                                since < INPUT_SOURCE_TOGGLE_DEBOUNCE_MS
                            },
                            None => false,
                        };
                        if !too_soon {
                            out.push(MacAction::CycleInputSource);
                        }
                        return out;
                    }
                },
            }
        }
        if state != KeyState::Up {
            match self.shift_candidate {
                Some(sc) => {
                    self.shift_candidate = None;
                    match scancode_to_macos_key(sc) {
                        Some(kc) => self.press(kc, &mut out),
                        None => {},
                    }
                },
                None => {},
            }
        }
        let ghost a1 = out@;
        let keycode = match scancode_to_macos_key(scancode) {
            Some(kc) => kc,
            None => return out,
        };
        match state {
            KeyState::Down => {
                if keycode == BACKSPACE_KEYCODE {
                    self.last_backspace_ms = Some(now_ms);
                    self.backspace_since_ms = Some(now_ms);
                }
                self.press(keycode, &mut out);
            },
            KeyState::Up => {
                if keycode == BACKSPACE_KEYCODE {
                    self.last_backspace_ms = None;
                    self.backspace_since_ms = None;
                }
                self.pressed.remove(&keycode);
                let flags = self.flags_for_key(keycode);
                Self::push_key(&mut out, keycode, false, flags);
            },
            KeyState::Repeat => {
                if keycode == BACKSPACE_KEYCODE {
                    let held: u64 = match self.backspace_since_ms {
                        Some(s) => if now_ms >= s {
                            now_ms - s
                        } else {
                            0
                        },
                        None => 0,
                    };
                    let interval = if held >= BACKSPACE_ACCEL_DELAY_MS {
                        BACKSPACE_ACCEL_REPEAT_MS
                    } else {
                        BACKSPACE_INITIAL_REPEAT_MS
                    };
                    let early = match self.last_backspace_ms {
                        Some(l) => (if now_ms >= l {
                            now_ms - l
                        } else {
                            0
                        }) < interval,
                        None => false,
                    };
                    if early {
                        return out;
                    }
                    self.last_backspace_ms = Some(now_ms);
                }
                if self.pressed.contains(&keycode) {
                    let flags = self.flags_for_key(keycode);
                    out.push(MacAction::Key { keycode, down: true, flags, autorepeat: true });
                } else {
                    self.press(keycode, &mut out);
                }
            },
        }
        out
    }

    /// The key events that switch input source by shortcut, for when the
    /// system call to switch fails.
    pub fn input_source_hotkey(&self) -> (r: Vec<MacAction>)
        ensures
            r@ == input_source_hotkey_actions(),
    {
        let mut out: Vec<MacAction> = Vec::new();
        Self::push_key(&mut out, CONTROL_KEYCODE, true, FLAG_CONTROL);
        Self::push_key(&mut out, SPACE_KEYCODE, true, FLAG_CONTROL);
        Self::push_key(&mut out, SPACE_KEYCODE, false, FLAG_CONTROL);
        Self::push_key(&mut out, CONTROL_KEYCODE, false, 0);
        assert(out@ =~= input_source_hotkey_actions());
        out
    }

    /// Notes that the input source was switched at `now_ms`.
    pub fn note_input_source_switched(&mut self, now_ms: u64)
        ensures
            final(self)@ == (MacSinkModel { last_toggle_ms: Some(now_ms), ..old(self)@ }),
    {
        self.last_toggle_ms = Some(now_ms);
    }

    /// The pointer position held on the screen.
    fn place(&mut self, x: i32, y: i32)
        requires
            mac_wf(old(self)@),
        ensures
            mac_wf(final(self)@),
            final(self)@ == (MacSinkModel {
                position: (clamp_int(x as int, 0, old(self)@.screen.0 - 1) as i32, clamp_int(
                    y as int,
                    0,
                    old(self)@.screen.1 - 1,
                ) as i32),
                ..old(self)@
            }),
    {
        let px = crate::arith::clamp(x, 0, self.screen.0 - 1);
        let py = crate::arith::clamp(y, 0, self.screen.1 - 1);
        self.position = (px, py);
    }

    fn motion(&self, dx: i32, dy: i32) -> (r: MacAction)
        ensures
            r == spec_motion(self@, dx, dy),
    {
        match self.buttons.drag_event() {
            Some((ty, button)) => MacAction::Mouse {
                event_type: ty,
                button,
                x: self.position.0,
                y: self.position.1,
                click_count: 0,
                dx,
                dy,
            },
            None => MacAction::Mouse {
                event_type: NATIVE_MOUSE_MOVED,
                button: NATIVE_BUTTON_LEFT,
                x: self.position.0,
                y: self.position.1,
                click_count: 0,
                dx,
                dy,
            },
        }
    }

    /// The pointer enters at `(x, y)`, held on the screen (whose size is
    /// read again).
    pub fn mouse_enter(&mut self, x: i32, y: i32, screen: (u32, u32)) -> (r: MacAction)
        requires
            mac_wf(old(self)@),
            screen.0 <= i32::MAX,
            screen.1 <= i32::MAX,
        ensures
            mac_wf(final(self)@),
            ({
                let s = ((if screen.0 < 1 { 1 } else { screen.0 }) as i32, (if screen.1 < 1 { 1 } else { screen.1 }) as i32);
                &&& final(self)@ == (MacSinkModel {
                    screen: s,
                    position: (clamp_int(x as int, 0, s.0 - 1) as i32, clamp_int(y as int, 0, s.1 - 1) as i32),
                    ..old(self)@
                })
                &&& r == spec_motion(final(self)@, 0, 0)
            }),
    {
        let w: i32 = if screen.0 < 1 { 1 } else { screen.0 as i32 };
        let h: i32 = if screen.1 < 1 { 1 } else { screen.1 as i32 };
        self.screen = (w, h);
        self.position = (crate::arith::clamp(x, 0, w - 1), crate::arith::clamp(y, 0, h - 1));
        self.motion(0, 0)
    }

    /// Whether the pointer can move by this much without leaving the 32-bit range.
    pub fn delta_fits(&self, dx: i32, dy: i32) -> (r: bool)
        ensures
            r == (i32::MIN <= self@.position.0 + dx <= i32::MAX && i32::MIN <= self@.position.1 + dy
                <= i32::MAX),
    {
        let x = self.position.0 as i64 + dx as i64;
        let y = self.position.1 as i64 + dy as i64;
        i32::MIN as i64 <= x && x <= i32::MAX as i64 && i32::MIN as i64 <= y && y <= i32::MAX as i64
    }

    /// The pointer moves by `(dx, dy)`, held on the screen.
    pub fn mouse_delta(&mut self, dx: i32, dy: i32) -> (r: MacAction)
        requires
            mac_wf(old(self)@),
            i32::MIN <= old(self)@.position.0 + dx <= i32::MAX,
            i32::MIN <= old(self)@.position.1 + dy <= i32::MAX,
        ensures
            mac_wf(final(self)@),
            final(self)@ == (MacSinkModel {
                position: (clamp_int(old(self)@.position.0 + dx, 0, old(self)@.screen.0 - 1) as i32,
                    clamp_int(old(self)@.position.1 + dy, 0, old(self)@.screen.1 - 1) as i32),
                ..old(self)@
            }),
            r == spec_motion(final(self)@, dx, dy),
    {
        let x = self.position.0 + dx;
        let y = self.position.1 + dy;
        self.place(x, y);
        self.motion(dx, dy)
    }

    /// A button goes down or up: the native event, with the click count
    /// (two for the second click of a double click).
    pub fn mouse_button(&mut self, button: MouseButton, down: bool, now_ms: u64) -> (r: MacAction)
        requires
            mac_wf(old(self)@),
        ensures
            mac_wf(final(self)@),
            ({
                let (b, down_ty, up_ty) = native_button(button);
                let (last, count) = spec_click(old(self)@.last_click, b, down, old(self)@.position, now_ms);
                &&& final(self)@ == (MacSinkModel {
                    buttons: buttons_set(old(self)@.buttons, b, down),
                    last_click: last,
                    ..old(self)@
                })
                &&& r == (MacAction::Mouse {
                    event_type: if down { down_ty } else { up_ty },
                    button: b,
                    x: old(self)@.position.0,
                    y: old(self)@.position.1,
                    click_count: count,
                    dx: 0,
                    dy: 0,
                })
            }),
    {
        let (b, down_ty, up_ty) = match button {
            MouseButton::Left => (NATIVE_BUTTON_LEFT, NATIVE_MOUSE_LEFT_DOWN, NATIVE_MOUSE_LEFT_UP),
            MouseButton::Right => (NATIVE_BUTTON_RIGHT, NATIVE_MOUSE_RIGHT_DOWN, NATIVE_MOUSE_RIGHT_UP),
            _ => (NATIVE_BUTTON_CENTER, NATIVE_MOUSE_OTHER_DOWN, NATIVE_MOUSE_OTHER_UP),
        };
        self.buttons.set(b, down);
        let count: i64 = if down {
            let count: i64 = match self.last_click {
                Some(last) => {
                    let elapsed: u64 = if now_ms >= last.at_ms {
                        now_ms - last.at_ms
                    } else {
                        0
                    };
                    let ddx: i64 = last.x as i64 - self.position.0 as i64;
                    let ddy: i64 = last.y as i64 - self.position.1 as i64;
                    let near = if -5 <= ddx && ddx <= 5 && -5 <= ddy && ddy <= 5 {
                        assert(0 <= ddx * ddx <= 25 && 0 <= ddy * ddy <= 25) by (nonlinear_arith)
                            requires
                                -5 <= ddx <= 5,
                                -5 <= ddy <= 5,
                        ;
                        ddx * ddx + ddy * ddy <= DOUBLE_CLICK_DISTANCE_SQUARED
                    } else {
                        false
                    };
                    proof {
                        if !(-5 <= ddx && ddx <= 5 && -5 <= ddy && ddy <= 5) {
                            assert(ddx * ddx + ddy * ddy > 25) by (nonlinear_arith)
                                requires
                                    !(-5 <= ddx && ddx <= 5 && -5 <= ddy && ddy <= 5),
                            ;
                        }
                    }
                    if last.button == b && elapsed <= DOUBLE_CLICK_WINDOW_MS && near {
                        if last.count + 1 < 2 {
                            last.count + 1
                        } else {
                            2
                        }
                    } else {
                        1
                    }
                },
                None => 1,
            };
            self.last_click = Some(
                ClickRecord {
                    button: b,
                    x: self.position.0,
                    y: self.position.1,
                    at_ms: now_ms,
                    count,
                },
            );
            count
        } else {
            match self.last_click {
                Some(last) => last.count,
                None => 1,
            }
        };
        MacAction::Mouse {
            event_type: if down {
                down_ty
            } else {
                up_ty
            },
            button: b,
            x: self.position.0,
            y: self.position.1,
            click_count: count,
            dx: 0,
            dy: 0,
        }
    }
}

impl MacInputSink {
    /// Releases every key still held, each with no modifier flags, as when
    /// the sink is dropped.
    pub fn release_all(&mut self) -> (r: Vec<MacAction>)
        ensures
            final(self)@ == (MacSinkModel { pressed: Set::empty(), ..old(self)@ }),
            r@.len() == old(self)@.pressed.len(),
            forall|i: int| 0 <= i < r@.len() ==> ((#[trigger] r@[i]) matches MacAction::Key { keycode, down, flags, autorepeat }
                && !down && flags == 0 && !autorepeat && old(self)@.pressed.contains(keycode)),
            forall|k: u16| #[trigger] old(self)@.pressed.contains(k) ==> exists|i: int|
                0 <= i < r@.len() && r@[i] == key_action(k, false, 0),
    {
        let mut out: Vec<MacAction> = Vec::new();
        let ghost ks = vstd::std_specs::hash::spec_hash_keys_iter(&self.pressed).remaining();
        for keycode in it: self.pressed.iter()
            invariant
                it.seq() == ks,
                out@.len() == it.index(),
                forall|i: int| 0 <= i < it.index() ==> out@[i] == key_action(*it.seq()[i], false, 0),
        {
            out.push(MacAction::Key { keycode: *keycode, down: false, flags: 0, autorepeat: false });
        }
        proof {
            let dom = old(self)@.pressed;
            assert(ks.unref().to_set() == dom);
            assert(ks.unref().no_duplicates());
            assert forall|i: int| 0 <= i < out@.len() implies ((#[trigger] out@[i]) matches MacAction::Key { keycode, down, flags, autorepeat }
                && !down && flags == 0 && !autorepeat && dom.contains(keycode)) by {
                assert(out@[i] == key_action(ks.unref()[i], false, 0));
                assert(ks.unref().to_set().contains(ks.unref()[i]));
            }
            assert forall|k: u16| #[trigger] dom.contains(k) implies exists|i: int|
                0 <= i < out@.len() && out@[i] == key_action(k, false, 0) by {
                assert(ks.unref().to_set().contains(k));
                let i = choose|i: int| 0 <= i < ks.unref().len() && ks.unref()[i] == k;
                assert(out@[i] == key_action(k, false, 0));
            }
            assert(dom.len() == ks.unref().len()) by {
                ks.unref().unique_seq_to_set();
            }
        }
        self.pressed = HashSet::new();
        out
    }
}

/// The native button and down and up event kinds of a protocol button.
pub open spec fn native_button(button: MouseButton) -> (u8, u8, u8) {
    match button {
        MouseButton::Left => (NATIVE_BUTTON_LEFT, NATIVE_MOUSE_LEFT_DOWN, NATIVE_MOUSE_LEFT_UP),
        MouseButton::Right => (NATIVE_BUTTON_RIGHT, NATIVE_MOUSE_RIGHT_DOWN, NATIVE_MOUSE_RIGHT_UP),
        _ => (NATIVE_BUTTON_CENTER, NATIVE_MOUSE_OTHER_DOWN, NATIVE_MOUSE_OTHER_UP),
    }
}

pub open spec fn buttons_set(b: MouseButtons, button: u8, down: bool) -> MouseButtons {
    if button == NATIVE_BUTTON_LEFT {
        MouseButtons { left: down, ..b }
    } else if button == NATIVE_BUTTON_RIGHT {
        MouseButtons { right: down, ..b }
    } else {
        MouseButtons { other: down, ..b }
    }
}

/// The motion event at the pointer: a drag while a button is held (left
/// first, then right, then other), a plain move otherwise.
pub open spec fn spec_motion(m: MacSinkModel, dx: i32, dy: i32) -> MacAction {
    let (ty, button) = if m.buttons.left {
        (crate::keymap::NATIVE_MOUSE_LEFT_DRAGGED, NATIVE_BUTTON_LEFT)
    } else if m.buttons.right {
        (crate::keymap::NATIVE_MOUSE_RIGHT_DRAGGED, NATIVE_BUTTON_RIGHT)
    } else if m.buttons.other {
        (crate::keymap::NATIVE_MOUSE_OTHER_DRAGGED, NATIVE_BUTTON_CENTER)
    } else {
        (NATIVE_MOUSE_MOVED, NATIVE_BUTTON_LEFT)
    };
    MacAction::Mouse { event_type: ty, button, x: m.position.0, y: m.position.1, click_count: 0, dx, dy }
}

/// Whether a click continues the last one: same button, within the
/// double-click time, and close by.
pub open spec fn same_click_sequence(last: ClickRecord, button: u8, pos: (i32, i32), now: u64) -> bool {
    &&& last.button == button
    &&& (if now >= last.at_ms { now - last.at_ms } else { 0 }) <= DOUBLE_CLICK_WINDOW_MS
    &&& (last.x - pos.0) * (last.x - pos.0) + (last.y - pos.1) * (last.y - pos.1) <= DOUBLE_CLICK_DISTANCE_SQUARED
}

/// The click record after a button event and its click count: a press
/// that continues the last click counts one more (at most two); a release
/// has the count of the last press.
pub open spec fn spec_click(last: Option<ClickRecord>, button: u8, down: bool, pos: (i32, i32), now: u64) -> (Option<ClickRecord>, i64) {
    if down {
        let count: i64 = match last {
            Some(l) => if same_click_sequence(l, button, pos, now) {
                if l.count + 1 < 2 { (l.count + 1) as i64 } else { 2 }
            } else {
                1
            },
            None => 1,
        };
        (Some(ClickRecord { button, x: pos.0, y: pos.1, at_ms: now, count }), count)
    } else {
        (last, match last {
            Some(l) => l.count,
            None => 1,
        })
    }
}

proof fn lemma_caps_bits(f: u64)
    by (bit_vector)
    ensures
        ((f | 0x0001_0000u64) & !0x0002_0000u64) & 0x0001_0000u64 == 0x0001_0000u64,
        ((f | 0x0001_0000u64) | 0x0002_0000u64) & 0x0001_0000u64 == 0x0001_0000u64,
        (f | 0x0001_0000u64) & 0x0001_0000u64 == 0x0001_0000u64,
        ((f | 0x0001_0000u64) & !0x0002_0000u64) & 0x0002_0000u64 == 0,
        ((f | 0x0001_0000u64) | 0x0002_0000u64) & 0x0002_0000u64 == 0x0002_0000u64,
        ((f | 0x0001_0000u64) & 0x0002_0000u64 == 0x0002_0000u64) == (f & 0x0002_0000u64 == 0x0002_0000u64),
        ((f | 0x0001_0000u64) & !0x0002_0000u64) & !0x0003_0000u64 == f & !0x0003_0000u64,
        ((f | 0x0001_0000u64) | 0x0002_0000u64) & !0x0003_0000u64 == f & !0x0003_0000u64,
        (f | 0x0001_0000u64) & !0x0003_0000u64 == f & !0x0003_0000u64,
{
}

/// Caps Lock is emulated: a press of Caps Lock turns the emulation on or
/// off, and no other key event changes it. While it is off a key goes out
/// with the held modifiers as they are; while it is on, with Alpha-Shift
/// added and the Shift bit inverted for letters only (Caps Lock and Shift
/// give lower-case letters; digits and symbols keep Shift as pressed), all
/// other bits as the held modifiers have them.
pub proof fn law_caps_lock_emulation(m: MacSinkModel, scancode: u16, state: KeyState, now: u64, keycode: u16)
    ensures
        spec_mac_key(m, CAPS_LOCK_SCANCODE, KeyState::Down, now).0.caps_lock == !m.caps_lock,
        scancode != CAPS_LOCK_SCANCODE ==> spec_mac_key(m, scancode, state, now).0.caps_lock == m.caps_lock,
        !m.caps_lock ==> spec_flags_for_key(m.pressed, m.caps_lock, keycode) == spec_flags_for_pressed_keys(
            m.pressed,
        ),
        m.caps_lock ==> spec_flags_for_key(m.pressed, m.caps_lock, keycode) & FLAG_ALPHA_SHIFT == FLAG_ALPHA_SHIFT,
        m.caps_lock ==> ((spec_flags_for_key(m.pressed, m.caps_lock, keycode) & FLAG_SHIFT == FLAG_SHIFT) == (
        spec_is_letter_keycode(keycode) != (spec_flags_for_pressed_keys(m.pressed) & FLAG_SHIFT == FLAG_SHIFT))),
        m.caps_lock ==> spec_flags_for_key(m.pressed, m.caps_lock, keycode) & !0x0003_0000u64
            == spec_flags_for_pressed_keys(m.pressed) & !0x0003_0000u64,
{
    lemma_caps_bits(spec_flags_for_pressed_keys(m.pressed));
}

} // verus!

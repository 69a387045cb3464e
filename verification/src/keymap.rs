use std::collections::HashSet;

use vstd::prelude::*;

use crate::protocol::{KeyState, MouseButton};

verus! {

broadcast use vstd::std_specs::hash::group_hash_axioms;

// Linux evdev codes.
pub const BTN_LEFT: u16 = 0x110;
pub const BTN_RIGHT: u16 = 0x111;
pub const BTN_MIDDLE: u16 = 0x112;
pub const BTN_SIDE: u16 = 0x113;
pub const BTN_EXTRA: u16 = 0x114;
pub const BTN_FORWARD: u16 = 0x115;
pub const BTN_BACK: u16 = 0x116;

pub const KEY_ESC: u16 = 1;
pub const KEY_MAX_COMMON: u16 = 255;
pub const KEY_KPENTER: u16 = 96;
pub const KEY_RIGHTCTRL: u16 = 97;
pub const KEY_RIGHTALT: u16 = 100;
pub const KEY_HOME: u16 = 102;
pub const KEY_UP: u16 = 103;
pub const KEY_PAGEUP: u16 = 104;
pub const KEY_LEFT: u16 = 105;
pub const KEY_RIGHT: u16 = 106;
pub const KEY_END: u16 = 107;
pub const KEY_DOWN: u16 = 108;
pub const KEY_PAGEDOWN: u16 = 109;
pub const KEY_INSERT: u16 = 110;
pub const KEY_DELETE: u16 = 111;
pub const KEY_LEFTMETA: u16 = 125;
pub const KEY_RIGHTMETA: u16 = 126;

pub open spec fn spec_mouse_button_code(button: MouseButton) -> u16 {
    match button {
        MouseButton::Left => BTN_LEFT,
        MouseButton::Middle => BTN_MIDDLE,
        MouseButton::Right => BTN_RIGHT,
        MouseButton::Extra(id) => if id == 4 {
            BTN_BACK
        } else if id == 5 {
            BTN_FORWARD
        } else if id == 6 {
            BTN_SIDE
        } else {
            BTN_EXTRA
        },
    }
}

/// The evdev button code a protocol button is injected as.
pub fn mouse_button_code(button: MouseButton) -> (r: u16)
    ensures
        r == spec_mouse_button_code(button),
{
    match button {
        MouseButton::Left => BTN_LEFT,
        MouseButton::Middle => BTN_MIDDLE,
        MouseButton::Right => BTN_RIGHT,
        MouseButton::Extra(4) => BTN_BACK,
        MouseButton::Extra(5) => BTN_FORWARD,
        MouseButton::Extra(6) => BTN_SIDE,
        MouseButton::Extra(_) => BTN_EXTRA,
    }
}

pub open spec fn spec_scancode_to_linux_key(scancode: u16) -> Option<u16> {
    if scancode == 284 {
        Some(KEY_KPENTER)
    } else if scancode == 285 {
        Some(KEY_RIGHTCTRL)
    } else if scancode == 312 {
        Some(KEY_RIGHTALT)
    } else if scancode == 327 {
        Some(KEY_HOME)
    } else if scancode == 328 {
        Some(KEY_UP)
    } else if scancode == 329 {
        Some(KEY_PAGEUP)
    } else if scancode == 331 {
        Some(KEY_LEFT)
    } else if scancode == 333 {
        Some(KEY_RIGHT)
    } else if scancode == 335 {
        Some(KEY_END)
    } else if scancode == 336 {
        Some(KEY_DOWN)
    } else if scancode == 337 {
        Some(KEY_PAGEDOWN)
    } else if scancode == 338 {
        Some(KEY_INSERT)
    } else if scancode == 339 {
        Some(KEY_DELETE)
    } else if scancode == 347 {
        Some(KEY_LEFTMETA)
    } else if KEY_ESC <= scancode <= KEY_MAX_COMMON {
        Some(scancode)
    } else if scancode >= 256 && scancode - 256 <= KEY_MAX_COMMON {
        Some((scancode - 256) as u16)
    } else {
        None
    }
}

/// The Linux key code a protocol scancode is injected as: the extended
/// keys by name, the common range as itself, and the rest of the extended
/// range without its 256 offset.
pub fn scancode_to_linux_key(scancode: u16) -> (r: Option<u16>)
    ensures
        r == spec_scancode_to_linux_key(scancode),
{
    match scancode {
        284 => Some(KEY_KPENTER),
        285 => Some(KEY_RIGHTCTRL),
        312 => Some(KEY_RIGHTALT),
        327 => Some(KEY_HOME),
        328 => Some(KEY_UP),
        329 => Some(KEY_PAGEUP),
        331 => Some(KEY_LEFT),
        333 => Some(KEY_RIGHT),
        335 => Some(KEY_END),
        336 => Some(KEY_DOWN),
        337 => Some(KEY_PAGEDOWN),
        338 => Some(KEY_INSERT),
        339 => Some(KEY_DELETE),
        347 => Some(KEY_LEFTMETA),
        _ => {
            if KEY_ESC <= scancode && scancode <= KEY_MAX_COMMON {
                Some(scancode)
            } else if scancode >= 256 && scancode - 256 <= KEY_MAX_COMMON {
                Some(scancode - 256)
            } else {
                None
            }
        },
    }
}

pub open spec fn spec_linux_key_to_protocol_scancode(code: u16) -> Option<u16> {
    if code == KEY_KPENTER {
        Some(284u16)
    } else if code == KEY_RIGHTCTRL {
        Some(285u16)
    } else if code == KEY_RIGHTALT {
        Some(312u16)
    } else if code == KEY_HOME {
        Some(327u16)
    } else if code == KEY_UP {
        Some(328u16)
    } else if code == KEY_PAGEUP {
        Some(329u16)
    } else if code == KEY_LEFT {
        Some(331u16)
    } else if code == KEY_RIGHT {
        Some(333u16)
    } else if code == KEY_END {
        Some(335u16)
    } else if code == KEY_DOWN {
        Some(336u16)
    } else if code == KEY_PAGEDOWN {
        Some(337u16)
    } else if code == KEY_INSERT {
        Some(338u16)
    } else if code == KEY_DELETE {
        Some(339u16)
    } else if code == KEY_LEFTMETA {
        Some(347u16)
    } else if code == KEY_RIGHTMETA {
        Some(348u16)
    } else if 1 <= code <= KEY_MAX_COMMON {
        Some(code)
    } else {
        None
    }
}

/// The protocol scancode a captured Linux key is sent as.
pub fn linux_key_to_protocol_scancode(code: u16) -> (r: Option<u16>)
    ensures
        r == spec_linux_key_to_protocol_scancode(code),
{
    match code {
        KEY_KPENTER => Some(284),
        KEY_RIGHTCTRL => Some(285),
        KEY_RIGHTALT => Some(312),
        KEY_HOME => Some(327),
        KEY_UP => Some(328),
        KEY_PAGEUP => Some(329),
        KEY_LEFT => Some(331),
        KEY_RIGHT => Some(333),
        KEY_END => Some(335),
        KEY_DOWN => Some(336),
        KEY_PAGEDOWN => Some(337),
        KEY_INSERT => Some(338),
        KEY_DELETE => Some(339),
        KEY_LEFTMETA => Some(347),
        KEY_RIGHTMETA => Some(348),
        _ => {
            if 1 <= code && code <= KEY_MAX_COMMON {
                Some(code)
            } else {
                None
            }
        },
    }
}

/// A Linux key captured on a server and injected on a Linux client comes
/// out as the same key; the right Meta key is the one exception (it comes
/// out as key 92).
pub proof fn law_linux_key_roundtrip(code: u16)
    requires
        spec_linux_key_to_protocol_scancode(code) is Some,
        code != KEY_RIGHTMETA,
    ensures
        spec_scancode_to_linux_key(spec_linux_key_to_protocol_scancode(code).unwrap()) == Some(
            code,
        ),
{
}

/// Whether an evdev key code is a mouse button.
pub fn is_mouse_button(code: u16) -> (r: bool)
    ensures
        r == (BTN_LEFT <= code <= BTN_BACK),
{
    BTN_LEFT <= code && code <= BTN_BACK
}

pub open spec fn spec_mouse_button_from_code(code: u16) -> MouseButton {
    if code == BTN_LEFT {
        MouseButton::Left
    } else if code == BTN_MIDDLE {
        MouseButton::Middle
    } else if code == BTN_RIGHT {
        MouseButton::Right
    } else if code == BTN_BACK {
        MouseButton::Extra(4)
    } else if code == BTN_FORWARD {
        MouseButton::Extra(5)
    } else if code == BTN_SIDE {
        MouseButton::Extra(6)
    } else if code == BTN_EXTRA {
        MouseButton::Extra(7)
    } else {
        MouseButton::Extra(8)
    }
}

/// The protocol button of a captured evdev button code.
pub fn mouse_button_from_code(code: u16) -> (r: MouseButton)
    ensures
        r == spec_mouse_button_from_code(code),
{
    match code {
        BTN_LEFT => MouseButton::Left,
        BTN_MIDDLE => MouseButton::Middle,
        BTN_RIGHT => MouseButton::Right,
        BTN_BACK => MouseButton::Extra(4),
        BTN_FORWARD => MouseButton::Extra(5),
        BTN_SIDE => MouseButton::Extra(6),
        BTN_EXTRA => MouseButton::Extra(7),
        _ => MouseButton::Extra(8),
    }
}

/// A captured mouse button is injected on a Linux client as the same
/// evdev button.
pub proof fn law_mouse_button_roundtrip(code: u16)
    requires
        BTN_LEFT <= code <= BTN_BACK,
    ensures
        spec_mouse_button_code(spec_mouse_button_from_code(code)) == code,
{
}

pub open spec fn spec_key_state_from_value(value: i32) -> KeyState {
    if value == 0 {
        KeyState::Up
    } else if value == 2 {
        KeyState::Repeat
    } else {
        KeyState::Down
    }
}

/// The key state of an evdev key value (0 up, 2 repeat, else down).
pub fn key_state_from_value(value: i32) -> (r: KeyState)
    ensures
        r == spec_key_state_from_value(value),
{
    match value {
        0 => KeyState::Up,
        2 => KeyState::Repeat,
        _ => KeyState::Down,
    }
}

/// Whole wheel detents for a wheel delta in pixels (120 to a detent), at
/// least one for any motion, keeping the direction.
pub open spec fn spec_wheel_steps(value: i16) -> i32 {
    if value == 0 {
        0
    } else {
        let mag: int = if value < 0 {
            -value
        } else {
            value as int
        };
        let steps: int = (mag + 119) / 120;
        if value < 0 {
            -steps as i32
        } else {
            steps as i32
        }
    }
}

/// Wheel detents for a wheel delta in pixels.
pub fn wheel_steps(value: i16) -> (r: i32)
    ensures
        r == spec_wheel_steps(value),
{
    let v = value as i32;
    if v == 0 {
        return 0;
    }
    let mag: u32 = if v < 0 {
        (-v) as u32
    } else {
        v as u32
    };
    let steps = ((mag + 119) / 120) as i32;
    if v < 0 {
        -steps
    } else {
        steps
    }
}

/// A point held on a screen of the given size (at least one pixel each way).
pub open spec fn spec_clamp_point(x: i32, y: i32, screen_size: (u32, u32)) -> (i32, i32) {
    let max_x: int = if screen_size.0 <= 1 {
        1
    } else {
        screen_size.0 - 1
    };
    let max_y: int = if screen_size.1 <= 1 {
        1
    } else {
        screen_size.1 - 1
    };
    (
        crate::arith::clamp_int(x as int, 0, max_x) as i32,
        crate::arith::clamp_int(y as int, 0, max_y) as i32,
    )
}

/// A point held on a screen; the size must fit a 32-bit coordinate.
pub fn clamp_point(x: i32, y: i32, screen_size: (u32, u32)) -> (r: (i32, i32))
    requires
        screen_size.0 <= 0x8000_0000,
        screen_size.1 <= 0x8000_0000,
    ensures
        r == spec_clamp_point(x, y, screen_size),
{
    let max_x: i32 = if screen_size.0 <= 1 {
        1
    } else {
        (screen_size.0 - 1) as i32
    };
    let max_y: i32 = if screen_size.1 <= 1 {
        1
    } else {
        (screen_size.1 - 1) as i32
    };
    (crate::arith::clamp(x, 0, max_x), crate::arith::clamp(y, 0, max_y))
}

/// A screen size of at least one pixel each way.
pub fn valid_screen_size(width: u32, height: u32) -> (r: (u32, u32))
    ensures
        r == ((if width < 1 {
            1u32
        } else {
            width
        }), (if height < 1 {
            1u32
        } else {
            height
        })),
{
    (
        if width < 1 {
            1
        } else {
            width
        },
        if height < 1 {
            1
        } else {
            height
        },
    )
}

/// The screen size assumed when none can be found.
pub fn fallback_screen_size() -> (r: (u32, u32))
    ensures
        r == (1920u32, 1080u32),
{
    (1920, 1080)
}

// macOS.
pub const COMMAND_KEYCODE: u16 = 55;
pub const RIGHT_COMMAND_KEYCODE: u16 = 54;
pub const CONTROL_KEYCODE: u16 = 59;
pub const OPTION_KEYCODE: u16 = 58;
pub const RIGHT_OPTION_KEYCODE: u16 = 61;
pub const LEFT_SHIFT_KEYCODE: u16 = 56;
pub const RIGHT_SHIFT_KEYCODE: u16 = 60;
pub const LEFT_SHIFT_SCANCODE: u16 = 42;
pub const RIGHT_SHIFT_SCANCODE: u16 = 54;

/// Whether a scancode is a Shift key.
pub fn is_shift_scancode(scancode: u16) -> (r: bool)
    ensures
        r == (scancode == LEFT_SHIFT_SCANCODE || scancode == RIGHT_SHIFT_SCANCODE),
{
    scancode == LEFT_SHIFT_SCANCODE || scancode == RIGHT_SHIFT_SCANCODE
}

pub open spec fn spec_is_letter_keycode(k: u16) -> bool {
    ||| 0 <= k <= 9
    ||| 11 <= k <= 17
    ||| k == 31 || k == 32 || k == 34 || k == 35 || k == 37 || k == 38 || k == 40
    ||| k == 45 || k == 46
}

/// Whether a macOS keycode is a letter key (on which Caps Lock acts).
pub fn is_letter_keycode(keycode: u16) -> (r: bool)
    ensures
        r == spec_is_letter_keycode(keycode),
{
    match keycode {
        0 | 1 | 2 | 3 | 4 | 5 | 6 | 7 | 8 | 9 | 11 | 12 | 13 | 14 | 15 | 16 | 17 | 31 | 32 | 34
        | 35 | 37 | 38 | 40 | 45 | 46 => true,
        _ => false,
    }
}

#[verifier::opaque]
pub open spec fn spec_scancode_to_macos_key(scancode: u16) -> Option<u16> {
    if scancode == 1 {
        Some(53u16)
    } else if scancode == 2 {
        Some(18u16)
    } else if scancode == 3 {
        Some(19u16)
    } else if scancode == 4 {
        Some(20u16)
    } else if scancode == 5 {
        Some(21u16)
    } else if scancode == 6 {
        Some(23u16)
    } else if scancode == 7 {
        Some(22u16)
    } else if scancode == 8 {
        Some(26u16)
    } else if scancode == 9 {
        Some(28u16)
    } else if scancode == 10 {
        Some(25u16)
    } else if scancode == 11 {
        Some(29u16)
    } else if scancode == 12 {
        Some(27u16)
    } else if scancode == 13 {
        Some(24u16)
    } else if scancode == 14 {
        Some(51u16)
    } else if scancode == 15 {
        Some(48u16)
    } else if scancode == 16 {
        Some(12u16)
    } else if scancode == 17 {
        Some(13u16)
    } else if scancode == 18 {
        Some(14u16)
    } else if scancode == 19 {
        Some(15u16)
    } else if scancode == 20 {
        Some(17u16)
    } else if scancode == 21 {
        Some(16u16)
    } else if scancode == 22 {
        Some(32u16)
    } else if scancode == 23 {
        Some(34u16)
    } else if scancode == 24 {
        Some(31u16)
    } else if scancode == 25 {
        Some(35u16)
    } else if scancode == 26 {
        Some(33u16)
    } else if scancode == 27 {
        Some(30u16)
    } else if scancode == 28 {
        Some(36u16)
    } else if scancode == 29 {
        Some(55u16)
    } else if scancode == 30 {
        Some(0u16)
    } else if scancode == 31 {
        Some(1u16)
    } else if scancode == 32 {
        Some(2u16)
    } else if scancode == 33 {
        Some(3u16)
    } else if scancode == 34 {
        Some(5u16)
    } else if scancode == 35 {
        Some(4u16)
    } else if scancode == 36 {
        Some(38u16)
    } else if scancode == 37 {
        Some(40u16)
    } else if scancode == 38 {
        Some(37u16)
    } else if scancode == 39 {
        Some(41u16)
    } else if scancode == 40 {
        Some(39u16)
    } else if scancode == 41 {
        Some(50u16)
    } else if scancode == 42 {
        Some(56u16)
    } else if scancode == 43 {
        Some(42u16)
    } else if scancode == 44 {
        Some(6u16)
    } else if scancode == 45 {
        Some(7u16)
    } else if scancode == 46 {
        Some(8u16)
    } else if scancode == 47 {
        Some(9u16)
    } else if scancode == 48 {
        Some(11u16)
    } else if scancode == 49 {
        Some(45u16)
    } else if scancode == 50 {
        Some(46u16)
    } else if scancode == 51 {
        Some(43u16)
    } else if scancode == 52 {
        Some(47u16)
    } else if scancode == 53 {
        Some(44u16)
    } else if scancode == 54 {
        Some(60u16)
    } else if scancode == 55 {
        Some(67u16)
    } else if scancode == 56 {
        Some(58u16)
    } else if scancode == 57 {
        Some(49u16)
    } else if scancode == 58 {
        Some(57u16)
    } else if scancode == 59 {
        Some(122u16)
    } else if scancode == 60 {
        Some(120u16)
    } else if scancode == 61 {
        Some(99u16)
    } else if scancode == 62 {
        Some(118u16)
    } else if scancode == 63 {
        Some(96u16)
    } else if scancode == 64 {
        Some(97u16)
    } else if scancode == 65 {
        Some(98u16)
    } else if scancode == 66 {
        Some(100u16)
    } else if scancode == 67 {
        Some(101u16)
    } else if scancode == 68 {
        Some(109u16)
    } else if scancode == 69 {
        Some(71u16)
    } else if scancode == 71 {
        Some(89u16)
    } else if scancode == 72 {
        Some(91u16)
    } else if scancode == 73 {
        Some(92u16)
    } else if scancode == 74 {
        Some(78u16)
    } else if scancode == 75 {
        Some(86u16)
    } else if scancode == 76 {
        Some(87u16)
    } else if scancode == 77 {
        Some(88u16)
    } else if scancode == 78 {
        Some(69u16)
    } else if scancode == 79 {
        Some(83u16)
    } else if scancode == 80 {
        Some(84u16)
    } else if scancode == 81 {
        Some(85u16)
    } else if scancode == 82 {
        Some(82u16)
    } else if scancode == 83 {
        Some(65u16)
    } else if scancode == 91 {
        Some(55u16)
    } else if scancode == 92 {
        Some(54u16)
    } else if scancode == 87 {
        Some(103u16)
    } else if scancode == 88 {
        Some(111u16)
    } else if scancode == 284 {
        Some(76u16)
    } else if scancode == 285 {
        Some(54u16)
    } else if scancode == 309 {
        Some(75u16)
    } else if scancode == 312 {
        Some(61u16)
    } else if scancode == 327 {
        Some(115u16)
    } else if scancode == 328 {
        Some(126u16)
    } else if scancode == 329 {
        Some(116u16)
    } else if scancode == 331 {
        Some(123u16)
    } else if scancode == 333 {
        Some(124u16)
    } else if scancode == 335 {
        Some(119u16)
    } else if scancode == 336 {
        Some(125u16)
    } else if scancode == 337 {
        Some(121u16)
    } else if scancode == 338 {
        Some(114u16)
    } else if scancode == 339 {
        Some(117u16)
    } else if scancode == 347 {
        Some(55u16)
    } else if scancode == 348 {
        Some(54u16)
    } else {
        None
    }
}

/// The macOS keycode a Windows scancode is typed with.
pub fn scancode_to_macos_key(scancode: u16) -> (r: Option<u16>)
    ensures
        r == spec_scancode_to_macos_key(scancode),
{
    proof {
        reveal(spec_scancode_to_macos_key);
    }
    match scancode {
        1 => Some(53),
        2 => Some(18),
        3 => Some(19),
        4 => Some(20),
        5 => Some(21),
        6 => Some(23),
        7 => Some(22),
        8 => Some(26),
        9 => Some(28),
        10 => Some(25),
        11 => Some(29),
        12 => Some(27),
        13 => Some(24),
        14 => Some(51),
        15 => Some(48),
        16 => Some(12),
        17 => Some(13),
        18 => Some(14),
        19 => Some(15),
        20 => Some(17),
        21 => Some(16),
        22 => Some(32),
        23 => Some(34),
        24 => Some(31),
        25 => Some(35),
        26 => Some(33),
        27 => Some(30),
        28 => Some(36),
        29 => Some(55),
        30 => Some(0),
        31 => Some(1),
        32 => Some(2),
        33 => Some(3),
        34 => Some(5),
        35 => Some(4),
        36 => Some(38),
        37 => Some(40),
        38 => Some(37),
        39 => Some(41),
        40 => Some(39),
        41 => Some(50),
        42 => Some(56),
        43 => Some(42),
        44 => Some(6),
        45 => Some(7),
        46 => Some(8),
        47 => Some(9),
        48 => Some(11),
        49 => Some(45),
        50 => Some(46),
        51 => Some(43),
        52 => Some(47),
        53 => Some(44),
        54 => Some(60),
        55 => Some(67),
        56 => Some(58),
        57 => Some(49),
        58 => Some(57),
        59 => Some(122),
        60 => Some(120),
        61 => Some(99),
        62 => Some(118),
        63 => Some(96),
        64 => Some(97),
        65 => Some(98),
        66 => Some(100),
        67 => Some(101),
        68 => Some(109),
        69 => Some(71),
        71 => Some(89),
        72 => Some(91),
        73 => Some(92),
        74 => Some(78),
        75 => Some(86),
        76 => Some(87),
        77 => Some(88),
        78 => Some(69),
        79 => Some(83),
        80 => Some(84),
        81 => Some(85),
        82 => Some(82),
        83 => Some(65),
        91 => Some(55),
        92 => Some(54),
        87 => Some(103),
        88 => Some(111),
        284 => Some(76),
        285 => Some(54),
        309 => Some(75),
        312 => Some(61),
        327 => Some(115),
        328 => Some(126),
        329 => Some(116),
        331 => Some(123),
        333 => Some(124),
        335 => Some(119),
        336 => Some(125),
        337 => Some(121),
        338 => Some(114),
        339 => Some(117),
        347 => Some(55),
        348 => Some(54),
        _ => None,
    }
}

#[verifier::opaque]
pub open spec fn spec_printable_vk_from_scancode(scancode: u16) -> Option<u16> {
    if scancode == 2 {
        Some(49u16)
    } else if scancode == 3 {
        Some(50u16)
    } else if scancode == 4 {
        Some(51u16)
    } else if scancode == 5 {
        Some(52u16)
    } else if scancode == 6 {
        Some(53u16)
    } else if scancode == 7 {
        Some(54u16)
    } else if scancode == 8 {
        Some(55u16)
    } else if scancode == 9 {
        Some(56u16)
    } else if scancode == 10 {
        Some(57u16)
    } else if scancode == 11 {
        Some(48u16)
    } else if scancode == 12 {
        Some(189u16)
    } else if scancode == 13 {
        Some(187u16)
    } else if scancode == 16 {
        Some(81u16)
    } else if scancode == 17 {
        Some(87u16)
    } else if scancode == 18 {
        Some(69u16)
    } else if scancode == 19 {
        Some(82u16)
    } else if scancode == 20 {
        Some(84u16)
    } else if scancode == 21 {
        Some(89u16)
    } else if scancode == 22 {
        Some(85u16)
    } else if scancode == 23 {
        Some(73u16)
    } else if scancode == 24 {
        Some(79u16)
    } else if scancode == 25 {
        Some(80u16)
    } else if scancode == 26 {
        Some(219u16)
    } else if scancode == 27 {
        Some(221u16)
    } else if scancode == 30 {
        Some(65u16)
    } else if scancode == 31 {
        Some(83u16)
    } else if scancode == 32 {
        Some(68u16)
    } else if scancode == 33 {
        Some(70u16)
    } else if scancode == 34 {
        Some(71u16)
    } else if scancode == 35 {
        Some(72u16)
    } else if scancode == 36 {
        Some(74u16)
    } else if scancode == 37 {
        Some(75u16)
    } else if scancode == 38 {
        Some(76u16)
    } else if scancode == 39 {
        Some(186u16)
    } else if scancode == 40 {
        Some(222u16)
    } else if scancode == 41 {
        Some(192u16)
    } else if scancode == 43 {
        Some(220u16)
    } else if scancode == 44 {
        Some(90u16)
    } else if scancode == 45 {
        Some(88u16)
    } else if scancode == 46 {
        Some(67u16)
    } else if scancode == 47 {
        Some(86u16)
    } else if scancode == 48 {
        Some(66u16)
    } else if scancode == 49 {
        Some(78u16)
    } else if scancode == 50 {
        Some(77u16)
    } else if scancode == 51 {
        Some(188u16)
    } else if scancode == 52 {
        Some(190u16)
    } else if scancode == 53 {
        Some(191u16)
    } else if scancode == 57 {
        Some(32u16)
    } else if scancode == 71 {
        Some(103u16)
    } else if scancode == 72 {
        Some(104u16)
    } else if scancode == 73 {
        Some(105u16)
    } else if scancode == 74 {
        Some(109u16)
    } else if scancode == 75 {
        Some(100u16)
    } else if scancode == 76 {
        Some(101u16)
    } else if scancode == 77 {
        Some(102u16)
    } else if scancode == 78 {
        Some(107u16)
    } else if scancode == 79 {
        Some(97u16)
    } else if scancode == 80 {
        Some(98u16)
    } else if scancode == 81 {
        Some(99u16)
    } else if scancode == 82 {
        Some(96u16)
    } else if scancode == 83 {
        Some(110u16)
    } else {
        None
    }
}

/// The Windows virtual key of a printable key's scancode.
pub fn printable_vk_from_scancode(scancode: u16) -> (r: Option<u16>)
    ensures
        r == spec_printable_vk_from_scancode(scancode),
{
    proof {
        reveal(spec_printable_vk_from_scancode);
    }
    match scancode {
        2 => Some(49),
        3 => Some(50),
        4 => Some(51),
        5 => Some(52),
        6 => Some(53),
        7 => Some(54),
        8 => Some(55),
        9 => Some(56),
        10 => Some(57),
        11 => Some(48),
        12 => Some(189),
        13 => Some(187),
        16 => Some(81),
        17 => Some(87),
        18 => Some(69),
        19 => Some(82),
        20 => Some(84),
        21 => Some(89),
        22 => Some(85),
        23 => Some(73),
        24 => Some(79),
        25 => Some(80),
        26 => Some(219),
        27 => Some(221),
        30 => Some(65),
        31 => Some(83),
        32 => Some(68),
        33 => Some(70),
        34 => Some(71),
        35 => Some(72),
        36 => Some(74),
        37 => Some(75),
        38 => Some(76),
        39 => Some(186),
        40 => Some(222),
        41 => Some(192),
        43 => Some(220),
        44 => Some(90),
        45 => Some(88),
        46 => Some(67),
        47 => Some(86),
        48 => Some(66),
        49 => Some(78),
        50 => Some(77),
        51 => Some(188),
        52 => Some(190),
        53 => Some(191),
        57 => Some(32),
        71 => Some(103),
        72 => Some(104),
        73 => Some(105),
        74 => Some(109),
        75 => Some(100),
        76 => Some(101),
        77 => Some(102),
        78 => Some(107),
        79 => Some(97),
        80 => Some(98),
        81 => Some(99),
        82 => Some(96),
        83 => Some(110),
        _ => None,
    }
}


/// macOS event modifier flags.
#[derive(Debug, Clone, Copy, Default, PartialEq, Eq, Structural)]
pub struct EventFlags(pub u64);

pub const FLAG_ALPHA_SHIFT: u64 = 0x0001_0000;
pub const FLAG_SHIFT: u64 = 0x0002_0000;
pub const FLAG_CONTROL: u64 = 0x0004_0000;
pub const FLAG_ALTERNATE: u64 = 0x0008_0000;
pub const FLAG_COMMAND: u64 = 0x0010_0000;

impl EventFlags {
    pub fn empty() -> (r: EventFlags)
        ensures
            r.0 == 0,
    {
        EventFlags(0)
    }

    /// Whether every flag of `other` is set.
    pub fn contains(self, other: EventFlags) -> (r: bool)
        ensures
            r == (self.0 & other.0 == other.0),
    {
        self.0 & other.0 == other.0
    }

    pub fn insert(&mut self, other: EventFlags)
        ensures
            final(self).0 == old(self).0 | other.0,
    {
        self.0 = self.0 | other.0;
    }

    pub fn remove(&mut self, other: EventFlags)
        ensures
            final(self).0 == old(self).0 & !other.0,
    {
        self.0 = self.0 & !other.0;
    }

    pub fn union(self, other: EventFlags) -> (r: EventFlags)
        ensures
            r.0 == self.0 | other.0,
    {
        EventFlags(self.0 | other.0)
    }
}

pub open spec fn spec_flags_for_pressed_keys(keys: Set<u16>) -> u64 {
    (if keys.contains(COMMAND_KEYCODE) || keys.contains(RIGHT_COMMAND_KEYCODE) {
        FLAG_COMMAND
    } else {
        0
    }) | (if keys.contains(CONTROL_KEYCODE) {
        FLAG_CONTROL
    } else {
        0
    }) | (if keys.contains(OPTION_KEYCODE) || keys.contains(RIGHT_OPTION_KEYCODE) {
        FLAG_ALTERNATE
    } else {
        0
    }) | (if keys.contains(LEFT_SHIFT_KEYCODE) || keys.contains(RIGHT_SHIFT_KEYCODE) {
        FLAG_SHIFT
    } else {
        0
    })
}

/// The modifier flags that the held macOS keys make.
pub fn flags_for_pressed_keys(keys: &HashSet<u16>) -> (r: EventFlags)
    ensures
        r.0 == spec_flags_for_pressed_keys(keys@),
{
    let command: u64 = if keys.contains(&COMMAND_KEYCODE) || keys.contains(&RIGHT_COMMAND_KEYCODE) {
        FLAG_COMMAND
    } else {
        0
    };
    let control: u64 = if keys.contains(&CONTROL_KEYCODE) {
        FLAG_CONTROL
    } else {
        0
    };
    let alternate: u64 = if keys.contains(&OPTION_KEYCODE) || keys.contains(&RIGHT_OPTION_KEYCODE) {
        FLAG_ALTERNATE
    } else {
        0
    };
    let shift: u64 = if keys.contains(&LEFT_SHIFT_KEYCODE) || keys.contains(&RIGHT_SHIFT_KEYCODE) {
        FLAG_SHIFT
    } else {
        0
    };
    EventFlags(command | control | alternate | shift)
}

pub const NATIVE_MOUSE_LEFT_DRAGGED: u8 = 8;
pub const NATIVE_MOUSE_RIGHT_DRAGGED: u8 = 9;
pub const NATIVE_MOUSE_OTHER_DRAGGED: u8 = 10;
pub const NATIVE_BUTTON_LEFT: u8 = 0;
pub const NATIVE_BUTTON_RIGHT: u8 = 1;
pub const NATIVE_BUTTON_CENTER: u8 = 2;

/// Which native mouse buttons are held.
#[derive(Debug, Clone, Copy, Default, PartialEq, Eq, Structural)]
pub struct MouseButtons {
    pub left: bool,
    pub right: bool,
    pub other: bool,
}

impl MouseButtons {
    pub fn set(&mut self, button: u8, down: bool)
        ensures
            button == NATIVE_BUTTON_LEFT ==> *final(self) == (MouseButtons { left: down, ..*old(self) }),
            button == NATIVE_BUTTON_RIGHT ==> *final(self) == (MouseButtons { right: down, ..*old(self) }),
            button != NATIVE_BUTTON_LEFT && button != NATIVE_BUTTON_RIGHT ==> *final(self)
                == (MouseButtons { other: down, ..*old(self) }),
    {
        match button {
            NATIVE_BUTTON_LEFT => self.left = down,
            NATIVE_BUTTON_RIGHT => self.right = down,
            _ => self.other = down,
        }
    }

    /// The drag event kind and button for a motion while buttons are held
    /// (left first, then right, then other).
    pub fn drag_event(&self) -> (r: Option<(u8, u8)>)
        ensures
            r == (if self.left {
                Some((NATIVE_MOUSE_LEFT_DRAGGED, NATIVE_BUTTON_LEFT))
            } else if self.right {
                Some((NATIVE_MOUSE_RIGHT_DRAGGED, NATIVE_BUTTON_RIGHT))
            } else if self.other {
                Some((NATIVE_MOUSE_OTHER_DRAGGED, NATIVE_BUTTON_CENTER))
            } else {
                None
            }),
    {
        if self.left {
            Some((NATIVE_MOUSE_LEFT_DRAGGED, NATIVE_BUTTON_LEFT))
        } else if self.right {
            Some((NATIVE_MOUSE_RIGHT_DRAGGED, NATIVE_BUTTON_RIGHT))
        } else if self.other {
            Some((NATIVE_MOUSE_OTHER_DRAGGED, NATIVE_BUTTON_CENTER))
        } else {
            None
        }
    }
}

pub open spec fn spec_mac_other_button(button: i64) -> MouseButton {
    if button == 2 {
        MouseButton::Middle
    } else if button == 3 {
        MouseButton::Extra(4)
    } else if button == 4 {
        MouseButton::Extra(5)
    } else {
        MouseButton::Extra(crate::arith::clamp_int(button as int, 4, 255) as u8)
    }
}

/// The protocol button of a macOS "other" mouse button number.
pub fn mac_other_button(button: i64) -> (r: MouseButton)
    ensures
        r == spec_mac_other_button(button),
{
    match button {
        2 => MouseButton::Middle,
        3 => MouseButton::Extra(4),
        4 => MouseButton::Extra(5),
        value => {
            let v: i64 = if value < 4 {
                4
            } else if value > 255 {
                255
            } else {
                value
            };
            MouseButton::Extra(v as u8)
        },
    }
}

// Windows.
/// The Windows virtual key of the Windows (Meta) keys.
pub fn windows_modifier_vk(scancode: u16) -> (r: Option<u16>)
    ensures
        r == (if scancode == 347 {
            Some(0x5Bu16)
        } else if scancode == 348 {
            Some(0x5Cu16)
        } else {
            None
        }),
{
    match scancode {
        347 => Some(0x5B),
        348 => Some(0x5C),
        _ => None,
    }
}

/// A protocol scancode split into the hardware scancode and whether it is
/// an extended key (the 256 offset).
pub fn decode_scancode(scancode: u16) -> (r: (u16, bool))
    ensures
        r == (if scancode >= 256 {
            ((scancode - 256) as u16, true)
        } else {
            (scancode, false)
        }),
{
    if scancode >= 256 {
        (scancode - 256, true)
    } else {
        (scancode, false)
    }
}

} // verus!

use std::collections::{HashMap, HashSet};

use vstd::prelude::*;
use vstd::std_specs::iter::IteratorSpec;

use crate::config::{spec_parse_modifier_target, ModifierTarget};
use crate::platform::ConnectionProfile;
use crate::protocol::{InputEvent, KeyState};
use crate::text::{spec_trim, trim};

verus! {

broadcast use vstd::std_specs::hash::group_hash_axioms;

/// The Windows scancode Caps Lock is sent as.
pub const CAPS_LOCK_SCANCODE: u16 = 58;

/// The groups of macOS modifier keys; left and right keys of a group share it.
#[derive(Debug, Clone, Copy, PartialEq, Eq, Hash, Structural)]
pub enum ModifierGroup {
    Command,
    Control,
    Option,
    Shift,
}

/// Which key each macOS modifier is sent as.
#[derive(Debug, Clone, Copy, PartialEq, Eq, Structural)]
pub struct ModifierMapping {
    pub command: ModifierTarget,
    pub control: ModifierTarget,
    pub option: ModifierTarget,
}

pub open spec fn key_event_spec(scancode: u16, state: KeyState) -> InputEvent {
    InputEvent::Key { scancode, state }
}

/// A key event for `scancode`.
pub fn key_event(scancode: u16, state: KeyState) -> (r: InputEvent)
    ensures
        r == key_event_spec(scancode, state),
{
    InputEvent::Key { scancode, state }
}

pub open spec fn spec_default_mapping(profile: ConnectionProfile) -> ModifierMapping {
    match profile {
        ConnectionProfile::MacOSToMacOS => ModifierMapping {
            command: ModifierTarget::Meta,
            control: ModifierTarget::Control,
            option: ModifierTarget::Alt,
        },
        _ => ModifierMapping {
            command: ModifierTarget::Control,
            control: ModifierTarget::Control,
            option: ModifierTarget::Alt,
        },
    }
}

/// A target taken from a configured value: the value, trimmed, when it names
/// a target; `default` otherwise.
pub open spec fn spec_configured_target(value: Option<Seq<char>>, default: ModifierTarget) -> ModifierTarget {
    match value {
        Some(v) => match spec_parse_modifier_target(spec_trim(v)) {
            Some(t) => t,
            None => default,
        },
        None => default,
    }
}

pub open spec fn opt_view(v: Option<&str>) -> Option<Seq<char>> {
    match v {
        Some(s) => Some(s@),
        None => None,
    }
}

fn configured_target(value: Option<&str>, default: ModifierTarget) -> (r: ModifierTarget)
    ensures
        r == spec_configured_target(opt_view(value), default),
{
    match value {
        Some(v) => match ModifierTarget::parse(trim(v)) {
            Some(t) => t,
            None => default,
        },
        None => default,
    }
}

pub open spec fn spec_target(mapping: ModifierMapping, group: ModifierGroup) -> ModifierTarget {
    match group {
        ModifierGroup::Command => mapping.command,
        ModifierGroup::Control => mapping.control,
        ModifierGroup::Option => mapping.option,
        ModifierGroup::Shift => ModifierTarget::Disabled,
    }
}

impl ModifierMapping {
    pub fn new(command: ModifierTarget, control: ModifierTarget, option: ModifierTarget) -> (r:
        ModifierMapping)
        ensures
            r == (ModifierMapping { command, control, option }),
    {
        ModifierMapping { command, control, option }
    }

    /// The mapping for a connection: Command is Meta between two Macs and
    /// Control otherwise, Control is Control and Option is Alt; each may be
    /// overridden by a configured value (as the environment gives it).
    pub fn for_profile(
        profile: ConnectionProfile,
        command: Option<&str>,
        control: Option<&str>,
        option: Option<&str>,
    ) -> (r: ModifierMapping)
        ensures
            r == (ModifierMapping {
                command: spec_configured_target(
                    opt_view(command),
                    spec_default_mapping(profile).command,
                ),
                control: spec_configured_target(
                    opt_view(control),
                    spec_default_mapping(profile).control,
                ),
                option: spec_configured_target(opt_view(option), spec_default_mapping(profile).option),
            }),
    {
        let defaults = match profile {
            ConnectionProfile::MacOSToMacOS => ModifierMapping {
                command: ModifierTarget::Meta,
                control: ModifierTarget::Control,
                option: ModifierTarget::Alt,
            },
            _ => ModifierMapping {
                command: ModifierTarget::Control,
                control: ModifierTarget::Control,
                option: ModifierTarget::Alt,
            },
        };
        ModifierMapping {
            command: configured_target(command, defaults.command),
            control: configured_target(control, defaults.control),
            option: configured_target(option, defaults.option),
        }
    }

    pub fn target(self, group: ModifierGroup) -> (r: ModifierTarget)
        ensures
            r == spec_target(self, group),
    {
        match group {
            ModifierGroup::Command => self.command,
            ModifierGroup::Control => self.control,
            ModifierGroup::Option => self.option,
            ModifierGroup::Shift => ModifierTarget::Disabled,
        }
    }
}

pub open spec fn spec_target_scancode(target: ModifierTarget, right: bool) -> Option<u16> {
    match (target, right) {
        (ModifierTarget::Control, false) => Some(29u16),
        (ModifierTarget::Control, true) => Some(285u16),
        (ModifierTarget::Meta, false) => Some(347u16),
        (ModifierTarget::Meta, true) => Some(348u16),
        (ModifierTarget::Alt, false) => Some(56u16),
        (ModifierTarget::Alt, true) => Some(312u16),
        (ModifierTarget::Disabled, _) => None,
    }
}

/// The scancode a modifier target is sent as, on the left or right side.
pub fn target_scancode(target: ModifierTarget, right: bool) -> (r: Option<u16>)
    ensures
        r == spec_target_scancode(target, right),
{
    match (target, right) {
        (ModifierTarget::Control, false) => Some(29),
        (ModifierTarget::Control, true) => Some(285),
        (ModifierTarget::Meta, false) => Some(347),
        (ModifierTarget::Meta, true) => Some(348),
        (ModifierTarget::Alt, false) => Some(56),
        (ModifierTarget::Alt, true) => Some(312),
        (ModifierTarget::Disabled, _) => None,
    }
}

pub open spec fn spec_modifier_group(keycode: u16) -> Option<ModifierGroup> {
    if keycode == 54 || keycode == 55 {
        Some(ModifierGroup::Command)
    } else if keycode == 58 || keycode == 61 {
        Some(ModifierGroup::Option)
    } else if keycode == 59 || keycode == 62 {
        Some(ModifierGroup::Control)
    } else if keycode == 56 || keycode == 60 {
        Some(ModifierGroup::Shift)
    } else {
        None
    }
}

/// The modifier group of a macOS keycode, if it is a modifier key.
pub fn modifier_group(keycode: u16) -> (r: Option<ModifierGroup>)
    ensures
        r == spec_modifier_group(keycode),
{
    match keycode {
        54 | 55 => Some(ModifierGroup::Command),
        58 | 61 => Some(ModifierGroup::Option),
        59 | 62 => Some(ModifierGroup::Control),
        56 | 60 => Some(ModifierGroup::Shift),
        _ => None,
    }
}

pub open spec fn spec_flag_down(group: ModifierGroup, flags: u64) -> bool {
    match group {
        ModifierGroup::Command => flags & 0x0010_0000 != 0,
        ModifierGroup::Control => flags & 0x0004_0000 != 0,
        ModifierGroup::Option => flags & 0x0008_0000 != 0,
        ModifierGroup::Shift => flags & 0x0002_0000 != 0,
    }
}

/// Whether the macOS event flags hold the group's modifier down.
pub fn modifier_flag_down(group: ModifierGroup, flags: u64) -> (r: bool)
    ensures
        r == spec_flag_down(group, flags),
{
    let mask: u64 = match group {
        ModifierGroup::Command => 0x0010_0000,
        ModifierGroup::Control => 0x0004_0000,
        ModifierGroup::Option => 0x0008_0000,
        ModifierGroup::Shift => 0x0002_0000,
    };
    flags & mask != 0
}

#[verifier::opaque]
pub open spec fn spec_mac_keycode_to_windows_scancode(keycode: u16) -> Option<u16> {
    if keycode == 0 {
        Some(30u16)
    } else if keycode == 1 {
        Some(31u16)
    } else if keycode == 2 {
        Some(32u16)
    } else if keycode == 3 {
        Some(33u16)
    } else if keycode == 4 {
        Some(35u16)
    } else if keycode == 5 {
        Some(34u16)
    } else if keycode == 6 {
        Some(44u16)
    } else if keycode == 7 {
        Some(45u16)
    } else if keycode == 8 {
        Some(46u16)
    } else if keycode == 9 {
        Some(47u16)
    } else if keycode == 11 {
        Some(48u16)
    } else if keycode == 12 {
        Some(16u16)
    } else if keycode == 13 {
        Some(17u16)
    } else if keycode == 14 {
        Some(18u16)
    } else if keycode == 15 {
        Some(19u16)
    } else if keycode == 16 {
        Some(21u16)
    } else if keycode == 17 {
        Some(20u16)
    } else if keycode == 18 {
        Some(2u16)
    } else if keycode == 19 {
        Some(3u16)
    } else if keycode == 20 {
        Some(4u16)
    } else if keycode == 21 {
        Some(5u16)
    } else if keycode == 22 {
        Some(7u16)
    } else if keycode == 23 {
        Some(6u16)
    } else if keycode == 24 {
        Some(13u16)
    } else if keycode == 25 {
        Some(10u16)
    } else if keycode == 26 {
        Some(8u16)
    } else if keycode == 27 {
        Some(12u16)
    } else if keycode == 28 {
        Some(9u16)
    } else if keycode == 29 {
        Some(11u16)
    } else if keycode == 30 {
        Some(27u16)
    } else if keycode == 31 {
        Some(24u16)
    } else if keycode == 32 {
        Some(22u16)
    } else if keycode == 33 {
        Some(26u16)
    } else if keycode == 34 {
        Some(23u16)
    } else if keycode == 35 {
        Some(25u16)
    } else if keycode == 36 {
        Some(28u16)
    } else if keycode == 37 {
        Some(38u16)
    } else if keycode == 38 {
        Some(36u16)
    } else if keycode == 39 {
        Some(40u16)
    } else if keycode == 40 {
        Some(37u16)
    } else if keycode == 41 {
        Some(39u16)
    } else if keycode == 42 {
        Some(43u16)
    } else if keycode == 43 {
        Some(51u16)
    } else if keycode == 44 {
        Some(53u16)
    } else if keycode == 45 {
        Some(49u16)
    } else if keycode == 46 {
        Some(50u16)
    } else if keycode == 47 {
        Some(52u16)
    } else if keycode == 48 {
        Some(15u16)
    } else if keycode == 49 {
        Some(57u16)
    } else if keycode == 50 {
        Some(41u16)
    } else if keycode == 51 {
        Some(14u16)
    } else if keycode == 53 {
        Some(1u16)
    } else if keycode == 65 {
        Some(83u16)
    } else if keycode == 67 {
        Some(55u16)
    } else if keycode == 69 {
        Some(78u16)
    } else if keycode == 71 {
        Some(69u16)
    } else if keycode == 75 {
        Some(309u16)
    } else if keycode == 76 {
        Some(284u16)
    } else if keycode == 78 {
        Some(74u16)
    } else if keycode == 82 {
        Some(82u16)
    } else if keycode == 83 {
        Some(79u16)
    } else if keycode == 84 {
        Some(80u16)
    } else if keycode == 85 {
        Some(81u16)
    } else if keycode == 86 {
        Some(75u16)
    } else if keycode == 87 {
        Some(76u16)
    } else if keycode == 88 {
        Some(77u16)
    } else if keycode == 89 {
        Some(71u16)
    } else if keycode == 91 {
        Some(72u16)
    } else if keycode == 92 {
        Some(73u16)
    } else if keycode == 96 {
        Some(63u16)
    } else if keycode == 97 {
        Some(64u16)
    } else if keycode == 98 {
        Some(65u16)
    } else if keycode == 99 {
        Some(61u16)
    } else if keycode == 100 {
        Some(66u16)
    } else if keycode == 101 {
        Some(67u16)
    } else if keycode == 103 {
        Some(87u16)
    } else if keycode == 109 {
        Some(68u16)
    } else if keycode == 111 {
        Some(88u16)
    } else if keycode == 114 {
        Some(338u16)
    } else if keycode == 115 {
        Some(327u16)
    } else if keycode == 116 {
        Some(329u16)
    } else if keycode == 117 {
        Some(339u16)
    } else if keycode == 118 {
        Some(62u16)
    } else if keycode == 119 {
        Some(335u16)
    } else if keycode == 120 {
        Some(60u16)
    } else if keycode == 121 {
        Some(337u16)
    } else if keycode == 122 {
        Some(59u16)
    } else if keycode == 123 {
        Some(331u16)
    } else if keycode == 124 {
        Some(333u16)
    } else if keycode == 125 {
        Some(336u16)
    } else if keycode == 126 {
        Some(328u16)
    } else {
        None
    }
}

#[verifier::opaque]
pub open spec fn windows_scancode_to_mac_keycode(scancode: u16) -> Option<u16> {
    if scancode == 30 {
        Some(0u16)
    } else if scancode == 31 {
        Some(1u16)
    } else if scancode == 32 {
        Some(2u16)
    } else if scancode == 33 {
        Some(3u16)
    } else if scancode == 35 {
        Some(4u16)
    } else if scancode == 34 {
        Some(5u16)
    } else if scancode == 44 {
        Some(6u16)
    } else if scancode == 45 {
        Some(7u16)
    } else if scancode == 46 {
        Some(8u16)
    } else if scancode == 47 {
        Some(9u16)
    } else if scancode == 48 {
        Some(11u16)
    } else if scancode == 16 {
        Some(12u16)
    } else if scancode == 17 {
        Some(13u16)
    } else if scancode == 18 {
        Some(14u16)
    } else if scancode == 19 {
        Some(15u16)
    } else if scancode == 21 {
        Some(16u16)
    } else if scancode == 20 {
        Some(17u16)
    } else if scancode == 2 {
        Some(18u16)
    } else if scancode == 3 {
        Some(19u16)
    } else if scancode == 4 {
        Some(20u16)
    } else if scancode == 5 {
        Some(21u16)
    } else if scancode == 7 {
        Some(22u16)
    } else if scancode == 6 {
        Some(23u16)
    } else if scancode == 13 {
        Some(24u16)
    } else if scancode == 10 {
        Some(25u16)
    } else if scancode == 8 {
        Some(26u16)
    } else if scancode == 12 {
        Some(27u16)
    } else if scancode == 9 {
        Some(28u16)
    } else if scancode == 11 {
        Some(29u16)
    } else if scancode == 27 {
        Some(30u16)
    } else if scancode == 24 {
        Some(31u16)
    } else if scancode == 22 {
        Some(32u16)
    } else if scancode == 26 {
        Some(33u16)
    } else if scancode == 23 {
        Some(34u16)
    } else if scancode == 25 {
        Some(35u16)
    } else if scancode == 28 {
        Some(36u16)
    } else if scancode == 38 {
        Some(37u16)
    } else if scancode == 36 {
        Some(38u16)
    } else if scancode == 40 {
        Some(39u16)
    } else if scancode == 37 {
        Some(40u16)
    } else if scancode == 39 {
        Some(41u16)
    } else if scancode == 43 {
        Some(42u16)
    } else if scancode == 51 {
        Some(43u16)
    } else if scancode == 53 {
        Some(44u16)
    } else if scancode == 49 {
        Some(45u16)
    } else if scancode == 50 {
        Some(46u16)
    } else if scancode == 52 {
        Some(47u16)
    } else if scancode == 15 {
        Some(48u16)
    } else if scancode == 57 {
        Some(49u16)
    } else if scancode == 41 {
        Some(50u16)
    } else if scancode == 14 {
        Some(51u16)
    } else if scancode == 1 {
        Some(53u16)
    } else if scancode == 83 {
        Some(65u16)
    } else if scancode == 55 {
        Some(67u16)
    } else if scancode == 78 {
        Some(69u16)
    } else if scancode == 69 {
        Some(71u16)
    } else if scancode == 309 {
        Some(75u16)
    } else if scancode == 284 {
        Some(76u16)
    } else if scancode == 74 {
        Some(78u16)
    } else if scancode == 82 {
        Some(82u16)
    } else if scancode == 79 {
        Some(83u16)
    } else if scancode == 80 {
        Some(84u16)
    } else if scancode == 81 {
        Some(85u16)
    } else if scancode == 75 {
        Some(86u16)
    } else if scancode == 76 {
        Some(87u16)
    } else if scancode == 77 {
        Some(88u16)
    } else if scancode == 71 {
        Some(89u16)
    } else if scancode == 72 {
        Some(91u16)
    } else if scancode == 73 {
        Some(92u16)
    } else if scancode == 63 {
        Some(96u16)
    } else if scancode == 64 {
        Some(97u16)
    } else if scancode == 65 {
        Some(98u16)
    } else if scancode == 61 {
        Some(99u16)
    } else if scancode == 66 {
        Some(100u16)
    } else if scancode == 67 {
        Some(101u16)
    } else if scancode == 87 {
        Some(103u16)
    } else if scancode == 68 {
        Some(109u16)
    } else if scancode == 88 {
        Some(111u16)
    } else if scancode == 338 {
        Some(114u16)
    } else if scancode == 327 {
        Some(115u16)
    } else if scancode == 329 {
        Some(116u16)
    } else if scancode == 339 {
        Some(117u16)
    } else if scancode == 62 {
        Some(118u16)
    } else if scancode == 335 {
        Some(119u16)
    } else if scancode == 60 {
        Some(120u16)
    } else if scancode == 337 {
        Some(121u16)
    } else if scancode == 59 {
        Some(122u16)
    } else if scancode == 331 {
        Some(123u16)
    } else if scancode == 333 {
        Some(124u16)
    } else if scancode == 336 {
        Some(125u16)
    } else if scancode == 328 {
        Some(126u16)
    } else {
        None
    }
}

pub fn mac_keycode_to_windows_scancode(keycode: u16) -> (r: Option<u16>)
    ensures
        r == spec_mac_keycode_to_windows_scancode(keycode),
{
    proof {
        reveal(spec_mac_keycode_to_windows_scancode);
    }
    match keycode {
        0 => Some(30),
        1 => Some(31),
        2 => Some(32),
        3 => Some(33),
        4 => Some(35),
        5 => Some(34),
        6 => Some(44),
        7 => Some(45),
        8 => Some(46),
        9 => Some(47),
        11 => Some(48),
        12 => Some(16),
        13 => Some(17),
        14 => Some(18),
        15 => Some(19),
        16 => Some(21),
        17 => Some(20),
        18 => Some(2),
        19 => Some(3),
        20 => Some(4),
        21 => Some(5),
        22 => Some(7),
        23 => Some(6),
        24 => Some(13),
        25 => Some(10),
        26 => Some(8),
        27 => Some(12),
        28 => Some(9),
        29 => Some(11),
        30 => Some(27),
        31 => Some(24),
        32 => Some(22),
        33 => Some(26),
        34 => Some(23),
        35 => Some(25),
        36 => Some(28),
        37 => Some(38),
        38 => Some(36),
        39 => Some(40),
        40 => Some(37),
        41 => Some(39),
        42 => Some(43),
        43 => Some(51),
        44 => Some(53),
        45 => Some(49),
        46 => Some(50),
        47 => Some(52),
        48 => Some(15),
        49 => Some(57),
        50 => Some(41),
        51 => Some(14),
        53 => Some(1),
        65 => Some(83),
        67 => Some(55),
        69 => Some(78),
        71 => Some(69),
        75 => Some(309),
        76 => Some(284),
        78 => Some(74),
        82 => Some(82),
        83 => Some(79),
        84 => Some(80),
        85 => Some(81),
        86 => Some(75),
        87 => Some(76),
        88 => Some(77),
        89 => Some(71),
        91 => Some(72),
        92 => Some(73),
        96 => Some(63),
        97 => Some(64),
        98 => Some(65),
        99 => Some(61),
        100 => Some(66),
        101 => Some(67),
        103 => Some(87),
        109 => Some(68),
        111 => Some(88),
        114 => Some(338),
        115 => Some(327),
        116 => Some(329),
        117 => Some(339),
        118 => Some(62),
        119 => Some(335),
        120 => Some(60),
        121 => Some(337),
        122 => Some(59),
        123 => Some(331),
        124 => Some(333),
        125 => Some(336),
        126 => Some(328),
        _ => None,
    }
}


/// The keycode that sends each Windows scancode (the table above, read backwards).
pub proof fn lemma_keycode_table_inverse(keycode: u16, scancode: u16)
    ensures
        spec_mac_keycode_to_windows_scancode(keycode) == Some(scancode)
            <==> windows_scancode_to_mac_keycode(scancode) == Some(keycode),
{
    reveal(spec_mac_keycode_to_windows_scancode);
    reveal(windows_scancode_to_mac_keycode);
}


/// The state of a keyboard router: the mapping, how many holders each sent
/// scancode has, the regular keys held, and the scancode each modifier group
/// holds.
pub struct KeyboardModel {
    pub mapping: ModifierMapping,
    pub pressed: Map<u16, usize>,
    pub regular: Set<u16>,
    pub command: Option<u16>,
    pub control: Option<u16>,
    pub option: Option<u16>,
    pub shift: Option<u16>,
}

pub open spec fn active_of(m: KeyboardModel, g: ModifierGroup) -> Option<u16> {
    match g {
        ModifierGroup::Command => m.command,
        ModifierGroup::Control => m.control,
        ModifierGroup::Option => m.option,
        ModifierGroup::Shift => m.shift,
    }
}

pub open spec fn with_active(m: KeyboardModel, g: ModifierGroup, v: Option<u16>) -> KeyboardModel {
    match g {
        ModifierGroup::Command => KeyboardModel { command: v, ..m },
        ModifierGroup::Control => KeyboardModel { control: v, ..m },
        ModifierGroup::Option => KeyboardModel { option: v, ..m },
        ModifierGroup::Shift => KeyboardModel { shift: v, ..m },
    }
}

pub open spec fn holds(slot: Option<u16>, scancode: u16) -> nat {
    if slot == Some(scancode) {
        1
    } else {
        0
    }
}

/// How many things hold `scancode` down: the regular key that sends it, and
/// each modifier group that sends it.
pub open spec fn holders(m: KeyboardModel, scancode: u16) -> nat {
    (match windows_scancode_to_mac_keycode(scancode) {
        Some(k) => if m.regular.contains(k) {
            1nat
        } else {
            0nat
        },
        None => 0nat,
    }) + holds(m.command, scancode) + holds(m.control, scancode) + holds(m.option, scancode)
        + holds(m.shift, scancode)
}

/// A scancode is counted pressed exactly when something holds it, and its
/// count is the number of its holders; every regular key held is a
/// non-modifier key with a scancode.
pub open spec fn keyboard_wf(m: KeyboardModel) -> bool {
    &&& forall|sc: u16| #[trigger] m.pressed.contains_key(sc) <==> holders(m, sc) > 0
    &&& forall|sc: u16| #[trigger] m.pressed.contains_key(sc) ==> m.pressed[sc] == holders(m, sc)
    &&& forall|k: u16| #[trigger] m.regular.contains(k) ==> spec_modifier_group(k) is None
        && spec_mac_keycode_to_windows_scancode(k) is Some
}

pub open spec fn spec_press(m: KeyboardModel, sc: u16) -> (KeyboardModel, Seq<InputEvent>) {
    let c: int = if m.pressed.contains_key(sc) {
        m.pressed[sc] + 1
    } else {
        1
    };
    (
        KeyboardModel { pressed: m.pressed.insert(sc, c as usize), ..m },
        if c == 1 {
            seq![key_event_spec(sc, KeyState::Down)]
        } else {
            seq![]
        },
    )
}

pub open spec fn spec_release(m: KeyboardModel, sc: u16) -> (KeyboardModel, Seq<InputEvent>) {
    if !m.pressed.contains_key(sc) {
        (m, seq![])
    } else {
        let c: int = if m.pressed[sc] == 0 {
            0
        } else {
            m.pressed[sc] - 1
        };
        if c == 0 {
            (
                KeyboardModel { pressed: m.pressed.remove(sc), ..m },
                seq![key_event_spec(sc, KeyState::Up)],
            )
        } else {
            (KeyboardModel { pressed: m.pressed.insert(sc, c as usize), ..m }, seq![])
        }
    }
}

pub open spec fn spec_modifier_scancode(
    mapping: ModifierMapping,
    group: ModifierGroup,
    keycode: u16,
) -> Option<u16> {
    let right = keycode == 54 || keycode == 60 || keycode == 61 || keycode == 62;
    match group {
        ModifierGroup::Shift => Some(
            if right {
                54u16
            } else {
                42u16
            },
        ),
        _ => spec_target_scancode(spec_target(mapping, group), right),
    }
}

pub open spec fn spec_update_group(m: KeyboardModel, g: ModifierGroup, keycode: u16, down: bool) -> (
    KeyboardModel,
    Seq<InputEvent>,
) {
    if down {
        if active_of(m, g) is Some {
            (m, seq![])
        } else {
            match spec_modifier_scancode(m.mapping, g, keycode) {
                None => (m, seq![]),
                Some(sc) => spec_press(with_active(m, g, Some(sc)), sc),
            }
        }
    } else {
        match active_of(m, g) {
            Some(sc) => spec_release(with_active(m, g, None), sc),
            None => (m, seq![]),
        }
    }
}

pub open spec fn spec_key_down(m: KeyboardModel, keycode: u16) -> (KeyboardModel, Seq<InputEvent>) {
    if spec_modifier_group(keycode) is Some {
        (m, seq![])
    } else {
        match spec_mac_keycode_to_windows_scancode(keycode) {
            None => (m, seq![]),
            Some(sc) => if m.regular.contains(keycode) {
                (m, seq![key_event_spec(sc, KeyState::Repeat)])
            } else {
                spec_press(KeyboardModel { regular: m.regular.insert(keycode), ..m }, sc)
            },
        }
    }
}

pub open spec fn spec_key_up(m: KeyboardModel, keycode: u16) -> (KeyboardModel, Seq<InputEvent>) {
    if spec_modifier_group(keycode) is Some {
        (m, seq![])
    } else {
        match spec_mac_keycode_to_windows_scancode(keycode) {
            None => (m, seq![]),
            Some(sc) => if !m.regular.contains(keycode) {
                (m, seq![])
            } else {
                spec_release(KeyboardModel { regular: m.regular.remove(keycode), ..m }, sc)
            },
        }
    }
}

pub open spec fn spec_flags_changed(m: KeyboardModel, keycode: u16, flags: u64) -> (
    KeyboardModel,
    Seq<InputEvent>,
) {
    if keycode == 57 {
        (
            m,
            seq![
                key_event_spec(CAPS_LOCK_SCANCODE, KeyState::Down),
                key_event_spec(CAPS_LOCK_SCANCODE, KeyState::Up),
            ],
        )
    } else {
        match spec_modifier_group(keycode) {
            None => (m, seq![]),
            Some(g) => spec_update_group(m, g, keycode, spec_flag_down(g, flags)),
        }
    }
}

pub open spec fn spec_sync_flags(m: KeyboardModel, flags: u64) -> (KeyboardModel, Seq<InputEvent>) {
    let (m1, e1) = spec_update_group(
        m,
        ModifierGroup::Command,
        55,
        spec_flag_down(ModifierGroup::Command, flags),
    );
    let (m2, e2) = spec_update_group(
        m1,
        ModifierGroup::Control,
        59,
        spec_flag_down(ModifierGroup::Control, flags),
    );
    let (m3, e3) = spec_update_group(
        m2,
        ModifierGroup::Option,
        58,
        spec_flag_down(ModifierGroup::Option, flags),
    );
    let (m4, e4) = spec_update_group(
        m3,
        ModifierGroup::Shift,
        56,
        spec_flag_down(ModifierGroup::Shift, flags),
    );
    (m4, e1 + e2 + e3 + e4)
}

/// What `release_all` returns for a router whose pressed scancodes are
/// `pressed`: one key-up for each of them, nothing else, none twice.
pub open spec fn releases_exactly(pressed: Map<u16, usize>, r: Seq<InputEvent>) -> bool {
    &&& forall|i: int| 0 <= i < r.len() ==> ((#[trigger] r[i]) matches InputEvent::Key { scancode, state }
        && state == KeyState::Up && pressed.contains_key(scancode))
    &&& forall|sc: u16| #[trigger] pressed.contains_key(sc) ==> exists|i: int|
        0 <= i < r.len() && r[i] == key_event_spec(sc, KeyState::Up)
    &&& forall|i: int, j: int| 0 <= i < j < r.len() ==> r[i] != r[j]
}

/// Turns macOS key events into Windows key events, counting how many keys
/// hold each scancode so that it goes down once and up once.
pub struct KeyboardRouter {
    mapping: ModifierMapping,
    pressed_keys: HashMap<u16, usize>,
    regular_keys: HashSet<u16>,
    active_command: Option<u16>,
    active_control: Option<u16>,
    active_option: Option<u16>,
    active_shift: Option<u16>,
}

impl View for KeyboardRouter {
    type V = KeyboardModel;

    closed spec fn view(&self) -> KeyboardModel {
        KeyboardModel {
            mapping: self.mapping,
            pressed: self.pressed_keys@,
            regular: self.regular_keys@,
            command: self.active_command,
            control: self.active_control,
            option: self.active_option,
            shift: self.active_shift,
        }
    }
}

impl KeyboardRouter {
    /// The router's invariant (see `keyboard_wf`).
    pub open spec fn wf(&self) -> bool {
        keyboard_wf(self@)
    }

    pub fn new(mapping: ModifierMapping) -> (r: KeyboardRouter)
        ensures
            r.wf(),
            r@ == (KeyboardModel {
                mapping,
                pressed: Map::empty(),
                regular: Set::empty(),
                command: None,
                control: None,
                option: None,
                shift: None,
            }),
    {
        KeyboardRouter {
            mapping,
            pressed_keys: HashMap::new(),
            regular_keys: HashSet::new(),
            active_command: None,
            active_control: None,
            active_option: None,
            active_shift: None,
        }
    }

    fn active(&self, g: ModifierGroup) -> (r: Option<u16>)
        ensures
            r == active_of(self@, g),
    {
        match g {
            ModifierGroup::Command => self.active_command,
            ModifierGroup::Control => self.active_control,
            ModifierGroup::Option => self.active_option,
            ModifierGroup::Shift => self.active_shift,
        }
    }

    fn set_active(&mut self, g: ModifierGroup, v: Option<u16>)
        ensures
            final(self)@ == with_active(old(self)@, g, v),
    {
        match g {
            ModifierGroup::Command => self.active_command = v,
            ModifierGroup::Control => self.active_control = v,
            ModifierGroup::Option => self.active_option = v,
            ModifierGroup::Shift => self.active_shift = v,
        }
    }

    fn press_logical(&mut self, scancode: u16) -> (r: Vec<InputEvent>)
        requires
            old(self)@.pressed.contains_key(scancode) ==> old(self)@.pressed[scancode] < 5,
        ensures
            (final(self)@, r@) == spec_press(old(self)@, scancode),
    {
        let count: usize = match self.pressed_keys.get(&scancode) {
            Some(c) => *c + 1,
            None => 1,
        };
        self.pressed_keys.insert(scancode, count);
        let mut events = Vec::new();
        if count == 1 {
            events.push(key_event(scancode, KeyState::Down));
        }
        proof {
            assert(events@ =~= spec_press(old(self)@, scancode).1);
        }
        events
    }

    fn release_logical(&mut self, scancode: u16) -> (r: Vec<InputEvent>)
        ensures
            (final(self)@, r@) == spec_release(old(self)@, scancode),
    {
        let count: usize = match self.pressed_keys.get(&scancode) {
            Some(c) => c.saturating_sub(1),
            None => {
                return Vec::new();
            },
        };
        let mut events = Vec::new();
        if count == 0 {
            self.pressed_keys.remove(&scancode);
            events.push(key_event(scancode, KeyState::Up));
        } else {
            self.pressed_keys.insert(scancode, count);
        }
        proof {
            assert(events@ =~= spec_release(old(self)@, scancode).1);
        }
        events
    }

    fn modifier_scancode(&self, group: ModifierGroup, keycode: u16) -> (r: Option<u16>)
        ensures
            r == spec_modifier_scancode(self@.mapping, group, keycode),
    {
        let right = keycode == 54 || keycode == 60 || keycode == 61 || keycode == 62;
        match group {
            ModifierGroup::Shift => Some(
                if right {
                    54
                } else {
                    42
                },
            ),
            _ => target_scancode(self.mapping.target(group), right),
        }
    }
}


/// Adding one holder of `sc` and then counting the press keeps the invariant.
pub(crate) proof fn lemma_press_wf(m: KeyboardModel, m1: KeyboardModel, sc: u16)
    requires
        keyboard_wf(m),
        m1.pressed == m.pressed,
        forall|s: u16| s != sc ==> holders(m1, s) == holders(m, s),
        holders(m1, sc) == holders(m, sc) + 1,
        forall|k: u16| #[trigger] m1.regular.contains(k) ==> spec_modifier_group(k) is None
            && spec_mac_keycode_to_windows_scancode(k) is Some,
    ensures
        m1.pressed.contains_key(sc) ==> m1.pressed[sc] < 5,
        keyboard_wf(spec_press(m1, sc).0),
{
    let n = spec_press(m1, sc).0;
    assert forall|s: u16| #[trigger] n.pressed.contains_key(s) <==> holders(n, s) > 0 by {
        assert(holders(n, s) == holders(m1, s));
        if s != sc {
            assert(m.pressed.contains_key(s) <==> holders(m, s) > 0);
        }
    }
    assert forall|s: u16| #[trigger] n.pressed.contains_key(s) implies n.pressed[s] == holders(
        n,
        s,
    ) by {
        assert(holders(n, s) == holders(m1, s));
        if s != sc {
            assert(m.pressed.contains_key(s));
        } else {
            assert(m.pressed.contains_key(sc) <==> holders(m, sc) > 0);
        }
    }
}

/// Removing one holder of `sc` and then counting the release keeps the invariant.
pub(crate) proof fn lemma_release_wf(m: KeyboardModel, m1: KeyboardModel, sc: u16)
    requires
        keyboard_wf(m),
        m1.pressed == m.pressed,
        forall|s: u16| s != sc ==> holders(m1, s) == holders(m, s),
        holders(m, sc) >= 1,
        holders(m1, sc) == holders(m, sc) - 1,
        forall|k: u16| #[trigger] m1.regular.contains(k) ==> spec_modifier_group(k) is None
            && spec_mac_keycode_to_windows_scancode(k) is Some,
    ensures
        keyboard_wf(spec_release(m1, sc).0),
        spec_release(m1, sc).1 == (if holders(m, sc) == 1 {
            seq![key_event_spec(sc, KeyState::Up)]
        } else {
            seq![]
        }),
{
    let n = spec_release(m1, sc).0;
    assert(m.pressed.contains_key(sc));
    assert forall|s: u16| #[trigger] n.pressed.contains_key(s) <==> holders(n, s) > 0 by {
        assert(holders(n, s) == holders(m1, s));
        if s != sc {
            assert(m.pressed.contains_key(s) <==> holders(m, s) > 0);
        }
    }
    assert forall|s: u16| #[trigger] n.pressed.contains_key(s) implies n.pressed[s] == holders(
        n,
        s,
    ) by {
        assert(holders(n, s) == holders(m1, s));
        if s != sc {
            assert(m.pressed.contains_key(s));
        }
    }
}

impl KeyboardRouter {
    fn press_group(&mut self, group: ModifierGroup, keycode: u16) -> (r: Vec<InputEvent>)
        requires
            old(self).wf(),
        ensures
            final(self).wf(),
            (final(self)@, r@) == spec_update_group(old(self)@, group, keycode, true),
    {
        let ghost m = self@;
        if self.active(group).is_some() {
            return Vec::new();
        }
        let scancode = match self.modifier_scancode(group, keycode) {
            Some(sc) => sc,
            None => {
                return Vec::new();
            },
        };
        self.set_active(group, Some(scancode));
        proof {
            assert forall|s: u16| s != scancode implies holders(self@, s) == holders(m, s) by {}
            assert(holders(self@, scancode) == holders(m, scancode) + 1);
            lemma_press_wf(m, self@, scancode);
        }
        self.press_logical(scancode)
    }

    fn release_group(&mut self, group: ModifierGroup) -> (r: Vec<InputEvent>)
        requires
            old(self).wf(),
        ensures
            final(self).wf(),
            forall|keycode: u16| (final(self)@, r@) == spec_update_group(old(self)@, group, keycode, false),
    {
        let ghost m = self@;
        match self.active(group) {
            Some(scancode) => {
                self.set_active(group, None);
                proof {
                    assert forall|s: u16| s != scancode implies holders(self@, s) == holders(m, s) by {}
                    assert(holders(self@, scancode) + 1 == holders(m, scancode));
                    lemma_release_wf(m, self@, scancode);
                }
                self.release_logical(scancode)
            },
            None => Vec::new(),
        }
    }

    fn update_group(&mut self, group: ModifierGroup, keycode: u16, down: bool) -> (r: Vec<
        InputEvent,
    >)
        requires
            old(self).wf(),
        ensures
            final(self).wf(),
            (final(self)@, r@) == spec_update_group(old(self)@, group, keycode, down),
    {
        if down {
            self.press_group(group, keycode)
        } else {
            self.release_group(group)
        }
    }

    /// A macOS key went down (`_repeat` is the platform's auto-repeat flag,
    /// which the router does not need).
    pub fn key_down(&mut self, mac_keycode: u16, _repeat: bool) -> (r: Vec<InputEvent>)
        requires
            old(self).wf(),
        ensures
            final(self).wf(),
            (final(self)@, r@) == spec_key_down(old(self)@, mac_keycode),
    {
        let ghost m = self@;
        if modifier_group(mac_keycode).is_some() {
            return Vec::new();
        }
        let scancode = match mac_keycode_to_windows_scancode(mac_keycode) {
            Some(sc) => sc,
            None => {
                return Vec::new();
            },
        };
        if self.regular_keys.contains(&mac_keycode) {
            let mut events = Vec::new();
            events.push(key_event(scancode, KeyState::Repeat));
            assert(events@ =~= seq![key_event_spec(scancode, KeyState::Repeat)]);
            return events;
        }
        self.regular_keys.insert(mac_keycode);
        proof {
            lemma_keycode_table_inverse(mac_keycode, scancode);
            assert forall|s: u16| s != scancode implies holders(self@, s) == holders(m, s) by {
                lemma_keycode_table_inverse(mac_keycode, s);
            }
            lemma_press_wf(m, self@, scancode);
        }
        self.press_logical(scancode)
    }

    /// A macOS key came up.
    pub fn key_up(&mut self, mac_keycode: u16) -> (r: Vec<InputEvent>)
        requires
            old(self).wf(),
        ensures
            final(self).wf(),
            (final(self)@, r@) == spec_key_up(old(self)@, mac_keycode),
    {
        let ghost m = self@;
        if modifier_group(mac_keycode).is_some() {
            return Vec::new();
        }
        let scancode = match mac_keycode_to_windows_scancode(mac_keycode) {
            Some(sc) => sc,
            None => {
                return Vec::new();
            },
        };
        if !self.regular_keys.remove(&mac_keycode) {
            assert(self@.regular =~= m.regular);
            return Vec::new();
        }
        proof {
            lemma_keycode_table_inverse(mac_keycode, scancode);
            assert forall|s: u16| s != scancode implies holders(self@, s) == holders(m, s) by {
                lemma_keycode_table_inverse(mac_keycode, s);
            }
            lemma_release_wf(m, self@, scancode);
        }
        self.release_logical(scancode)
    }

    /// The macOS modifier flags changed because of `mac_keycode`; Caps Lock
    /// (keycode 57) is sent as a tap.
    pub fn flags_changed(&mut self, mac_keycode: u16, flags: u64) -> (r: Vec<InputEvent>)
        requires
            old(self).wf(),
        ensures
            final(self).wf(),
            (final(self)@, r@) == spec_flags_changed(old(self)@, mac_keycode, flags),
    {
        if mac_keycode == 57 {
            let mut events = Vec::new();
            events.push(key_event(CAPS_LOCK_SCANCODE, KeyState::Down));
            events.push(key_event(CAPS_LOCK_SCANCODE, KeyState::Up));
            assert(events@ =~= spec_flags_changed(self@, mac_keycode, flags).1);
            return events;
        }
        let group = match modifier_group(mac_keycode) {
            Some(g) => g,
            None => {
                return Vec::new();
            },
        };
        self.update_group(group, mac_keycode, modifier_flag_down(group, flags))
    }

    /// Brings every modifier group in line with the flags of an event.
    pub fn sync_flags(&mut self, flags: u64) -> (r: Vec<InputEvent>)
        requires
            old(self).wf(),
        ensures
            final(self).wf(),
            (final(self)@, r@) == spec_sync_flags(old(self)@, flags),
    {
        let mut events = self.update_group(
            ModifierGroup::Command,
            55,
            modifier_flag_down(ModifierGroup::Command, flags),
        );
        let mut e2 = self.update_group(
            ModifierGroup::Control,
            59,
            modifier_flag_down(ModifierGroup::Control, flags),
        );
        events.append(&mut e2);
        let mut e3 = self.update_group(
            ModifierGroup::Option,
            58,
            modifier_flag_down(ModifierGroup::Option, flags),
        );
        events.append(&mut e3);
        let mut e4 = self.update_group(
            ModifierGroup::Shift,
            56,
            modifier_flag_down(ModifierGroup::Shift, flags),
        );
        events.append(&mut e4);
        events
    }

    /// Releases everything: one key-up for each scancode held, and the
    /// router is empty again.
    pub fn release_all(&mut self) -> (r: Vec<InputEvent>)
        requires
            old(self).wf(),
        ensures
            final(self).wf(),
            final(self)@ == (KeyboardModel {
                mapping: old(self)@.mapping,
                pressed: Map::empty(),
                regular: Set::empty(),
                command: None,
                control: None,
                option: None,
                shift: None,
            }),
            r@.len() == old(self)@.pressed.dom().len(),
            releases_exactly(old(self)@.pressed, r@),
    {
        let mut events: Vec<InputEvent> = Vec::new();
        let ghost ks = vstd::std_specs::hash::spec_keys_iter(&self.pressed_keys).remaining();
        for scancode in it: self.pressed_keys.keys()
            invariant
                it.seq() == ks,
                events@.len() == it.index(),
                forall|i: int|
                    0 <= i < it.index() ==> events@[i] == key_event_spec(
                        *it.seq()[i],
                        KeyState::Up,
                    ),
        {
            events.push(key_event(*scancode, KeyState::Up));
        }
        proof {
            let dom = old(self)@.pressed.dom();
            assert(ks.unref().to_set() == dom);
            assert(ks.unref().no_duplicates());
            assert forall|i: int| 0 <= i < events@.len() implies (#[trigger] events@[i]) == key_event_spec(ks.unref()[i], KeyState::Up) && dom.contains(ks.unref()[i]) by {
                assert(ks.unref().to_set().contains(ks.unref()[i]));
            }
            assert forall|sc: u16| #[trigger] dom.contains(sc) implies exists|i: int|
                0 <= i < events@.len() && events@[i] == key_event_spec(sc, KeyState::Up) by {
                assert(ks.unref().to_set().contains(sc));
                let i = choose|i: int| 0 <= i < ks.unref().len() && ks.unref()[i] == sc;
                assert(events@[i] == key_event_spec(sc, KeyState::Up));
            }
        }
        self.pressed_keys.clear();
        self.regular_keys.clear();
        self.active_command = None;
        self.active_control = None;
        self.active_option = None;
        self.active_shift = None;
        events
    }
}


/// A regular key pressed and released again leaves the router as it was;
/// its scancode goes down and comes up only when nothing else held it.
pub proof fn law_key_press_release_balanced(m: KeyboardModel, keycode: u16)
    requires
        keyboard_wf(m),
        spec_modifier_group(keycode) is None,
        spec_mac_keycode_to_windows_scancode(keycode) is Some,
        !m.regular.contains(keycode),
    ensures
        ({
            let sc = spec_mac_keycode_to_windows_scancode(keycode).unwrap();
            let (m1, down) = spec_key_down(m, keycode);
            let (m2, up) = spec_key_up(m1, keycode);
            &&& m2 == m
            &&& down == (if holders(m, sc) == 0 {
                seq![key_event_spec(sc, KeyState::Down)]
            } else {
                seq![]
            })
            &&& up == (if holders(m, sc) == 0 {
                seq![key_event_spec(sc, KeyState::Up)]
            } else {
                seq![]
            })
        }),
{
    let sc = spec_mac_keycode_to_windows_scancode(keycode).unwrap();
    let (m1, down) = spec_key_down(m, keycode);
    let (m2, up) = spec_key_up(m1, keycode);
    assert(m.pressed.contains_key(sc) <==> holders(m, sc) > 0);
    assert(m2.regular =~= m.regular);
    assert(m2.pressed =~= m.pressed);
}

/// A modifier group pressed and released again leaves the router as it
/// was; its scancode goes down and comes up only when nothing else held it,
/// so two groups sent as the same key share one press.
pub proof fn law_modifier_press_release_balanced(
    m: KeyboardModel,
    g: ModifierGroup,
    keycode: u16,
    release_keycode: u16,
)
    requires
        keyboard_wf(m),
        active_of(m, g) is None,
        spec_modifier_scancode(m.mapping, g, keycode) is Some,
    ensures
        ({
            let sc = spec_modifier_scancode(m.mapping, g, keycode).unwrap();
            let (m1, down) = spec_update_group(m, g, keycode, true);
            let (m2, up) = spec_update_group(m1, g, release_keycode, false);
            &&& m2 == m
            &&& down == (if holders(m, sc) == 0 {
                seq![key_event_spec(sc, KeyState::Down)]
            } else {
                seq![]
            })
            &&& up == (if holders(m, sc) == 0 {
                seq![key_event_spec(sc, KeyState::Up)]
            } else {
                seq![]
            })
        }),
{
    let sc = spec_modifier_scancode(m.mapping, g, keycode).unwrap();
    let (m1, down) = spec_update_group(m, g, keycode, true);
    let (m2, up) = spec_update_group(m1, g, release_keycode, false);
    assert(m.pressed.contains_key(sc) <==> holders(m, sc) > 0);
    assert(m2.pressed =~= m.pressed);
}

} // verus!

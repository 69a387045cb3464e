use vstd::prelude::*;

use crate::arith::{clamp_int, div_toward_zero, sat_add_i32};
use crate::config::{spec_parse_modifier_target, ModifierTarget};
use crate::keyboard::{
    key_event_spec, keyboard_wf, spec_default_mapping, spec_flag_down, spec_flags_changed, spec_modifier_group,
    spec_modifier_scancode, KeyboardModel, ModifierGroup, ModifierMapping,
};
use crate::keymap::{
    spec_linux_key_to_protocol_scancode, spec_scancode_to_linux_key, spec_scancode_to_macos_key, FLAG_ALTERNATE,
    FLAG_COMMAND, FLAG_CONTROL, FLAG_SHIFT,
};
use crate::platform::{platform_name, profile_name, spec_is_same_platform, spec_profile, Platform};
use crate::pointer::{router_wf, spec_observe_local_motion, spec_scaled, MotionAction, RouterModel};
use crate::protocol::{InputEvent, KeyState};
use crate::server::Edge;

verus! {

/// Each modifier group is read from its own bit of the macOS event flags:
/// Command from `NSEventModifierFlagCommand`, Control from
/// `NSEventModifierFlagControl`, Option from `NSEventModifierFlagOption`
/// and Shift from `NSEventModifierFlagShift`, the same bits the macOS
/// client posts its keys with.
pub proof fn law_modifier_groups_read_their_macos_bits(f: u64)
    ensures
        spec_flag_down(ModifierGroup::Command, f) == (f & FLAG_COMMAND != 0),
        spec_flag_down(ModifierGroup::Control, f) == (f & FLAG_CONTROL != 0),
        spec_flag_down(ModifierGroup::Option, f) == (f & FLAG_ALTERNATE != 0),
        spec_flag_down(ModifierGroup::Shift, f) == (f & FLAG_SHIFT != 0),
{
}

/// Pressing the left Option key, with Option sent as Alt and nothing
/// holding left Alt yet, sends one left-Alt key-down exactly when the flags
/// carry the Option bit, and nothing otherwise.
pub proof fn law_option_press_sends_left_alt(m: KeyboardModel, f: u64)
    requires
        keyboard_wf(m),
        m.mapping.option == ModifierTarget::Alt,
        m.option is None,
        !m.pressed.contains_key(56),
    ensures
        spec_flags_changed(m, 58, f).1 == (if f & FLAG_ALTERNATE != 0 {
            seq![key_event_spec(56, KeyState::Down)]
        } else {
            Seq::<InputEvent>::empty()
        }),
{
}

/// Whether a macOS modifier keycode is the right-hand key of its pair
/// (`kVK_RightCommand`, `kVK_RightShift`, `kVK_RightOption`,
/// `kVK_RightControl`).
pub open spec fn is_right_modifier_key(keycode: u16) -> bool {
    keycode == 54 || keycode == 60 || keycode == 61 || keycode == 62
}

/// The Windows scancode of a modifier target on one side: Control is 29
/// on the left and E0 1D on the right, Meta is the Windows key E0 5B / E0
/// 5C, Alt is 38 / E0 38; a disabled target has none.
pub open spec fn side_scancode(t: ModifierTarget, right: bool) -> Option<u16> {
    match t {
        ModifierTarget::Control => Some(if right { 0x11du16 } else { 0x1du16 }),
        ModifierTarget::Meta => Some(if right { 0x15cu16 } else { 0x15bu16 }),
        ModifierTarget::Alt => Some(if right { 0x138u16 } else { 0x38u16 }),
        ModifierTarget::Disabled => None,
    }
}

/// A modifier key is sent on its own side: Command, Control and Option as
/// the target the mapping gives their group, Shift always as Shift (2A on
/// the left, 36 on the right), each right-hand key as the right-hand
/// scancode and each left-hand key as the left-hand one.
pub proof fn law_modifier_keys_keep_their_side(mapping: ModifierMapping, keycode: u16)
    ensures
        spec_modifier_group(keycode) == Some(ModifierGroup::Command) ==> spec_modifier_scancode(
            mapping,
            ModifierGroup::Command,
            keycode,
        ) == side_scancode(mapping.command, is_right_modifier_key(keycode)),
        spec_modifier_group(keycode) == Some(ModifierGroup::Control) ==> spec_modifier_scancode(
            mapping,
            ModifierGroup::Control,
            keycode,
        ) == side_scancode(mapping.control, is_right_modifier_key(keycode)),
        spec_modifier_group(keycode) == Some(ModifierGroup::Option) ==> spec_modifier_scancode(
            mapping,
            ModifierGroup::Option,
            keycode,
        ) == side_scancode(mapping.option, is_right_modifier_key(keycode)),
        spec_modifier_group(keycode) == Some(ModifierGroup::Shift) ==> spec_modifier_scancode(
            mapping,
            ModifierGroup::Shift,
            keycode,
        ) == Some(if is_right_modifier_key(keycode) { 0x36u16 } else { 0x2au16 }),
        spec_modifier_group(keycode) is Some <==> (54 <= keycode <= 62 && keycode != 57),
{
}

/// The named keys of the extended range, as Windows scancode, Linux key
/// code (`linux/input-event-codes.h`) and macOS virtual keycode (`kVK_`):
/// keypad Enter, Home, Up, Page Up, Left, Right, End, Down, Page Down,
/// Insert (Help on a Mac) and forward Delete.
pub open spec fn named_extended_keys() -> Seq<(u16, u16, u16)> {
    seq![
        (284u16, 96u16, 76u16),
        (327u16, 102u16, 115u16),
        (328u16, 103u16, 126u16),
        (329u16, 104u16, 116u16),
        (331u16, 105u16, 123u16),
        (333u16, 106u16, 124u16),
        (335u16, 107u16, 119u16),
        (336u16, 108u16, 125u16),
        (337u16, 109u16, 121u16),
        (338u16, 110u16, 114u16),
        (339u16, 111u16, 117u16),
    ]
}

/// Each named extended key keeps its name across platforms: a Linux client
/// injects it as the Linux key of that name, a Linux server sends that key
/// as its scancode, and a macOS client posts the Mac key of the same name.
pub proof fn law_named_keys_keep_their_names(i: int)
    requires
        0 <= i < named_extended_keys().len(),
    ensures
        spec_scancode_to_linux_key(named_extended_keys()[i].0) == Some(named_extended_keys()[i].1),
        spec_linux_key_to_protocol_scancode(named_extended_keys()[i].1) == Some(named_extended_keys()[i].0),
        spec_scancode_to_macos_key(named_extended_keys()[i].0) == Some(named_extended_keys()[i].2),
{
    reveal(spec_scancode_to_macos_key);
}

proof fn lemma_scaled_row(y: i32, from: i32, to: i32)
    requires
        1 <= from,
        1 <= to,
        0 <= y < from,
    ensures
        0 <= spec_scaled(y, from, to) < to,
        spec_scaled(y, from, to) * from <= y * to < (spec_scaled(y, from, to) + 1) * from,
{
    let a: int = y * to;
    let q: int = a / (from as int);
    assert(0 <= a) by (nonlinear_arith)
        requires
            0 <= y,
            1 <= to,
            a == y * to,
    ;
    assert(q * from <= a < q * from + from) by (nonlinear_arith)
        requires
            1 <= from,
            q == a / (from as int),
            0 <= a,
    ;
    assert(a < from * to) by (nonlinear_arith)
        requires
            0 <= y < from,
            1 <= to,
            a == y * to,
    ;
    assert(0 <= q < to) by (nonlinear_arith)
        requires
            q * from <= a,
            a < from * to,
            1 <= from,
            0 <= a,
            a < q * from + from,
    ;
    assert(div_toward_zero(a, from as int) == q);
    assert(sat_add_i32(to as int, -1) == to - 1);
    assert(clamp_int((q as i32) as int, 0, to - 1) == q);
    let r = spec_scaled(y, from, to);
    assert(r == q);
    assert(r * from <= y * to < (r + 1) * from) by (nonlinear_arith)
        requires
            r == q,
            q * from <= a < q * from + from,
            a == y * to,
    ;
}

/// A pointer that leaves the local screen enters the remote one on its
/// near edge, at the row the local row scales to: the remote row `ry` of a
/// local row `y` is the one with `ry * local_height <= y * remote_height <
/// (ry + 1) * local_height`, so the top row enters at the top and the
/// bottom row at the bottom.
pub proof fn law_enter_remote_scales_the_row(m: RouterModel, x: i32, y: i32)
    requires
        router_wf(m),
        0 <= y < m.local_size.1,
    ensures
        spec_observe_local_motion(m, x, y).1 is EnterRemote ==> ({
            let ry = spec_observe_local_motion(m, x, y).1->EnterRemote_y;
            let rx = spec_observe_local_motion(m, x, y).1->EnterRemote_x;
            &&& 0 <= ry < m.remote_size.1
            &&& ry * m.local_size.1 <= y * m.remote_size.1 < (ry + 1) * m.local_size.1
            &&& rx == (match m.edge {
                Edge::Right => 0int,
                Edge::Left => m.remote_size.0 - 1,
            })
        }),
{
    lemma_scaled_row(y, m.local_size.1, m.remote_size.1);
}

/// The names a modifier target may be configured with.
pub open spec fn modifier_target_aliases(t: ModifierTarget) -> Seq<Seq<char>> {
    match t {
        ModifierTarget::Control => seq!["control"@, "ctrl"@],
        ModifierTarget::Meta => seq!["meta"@, "win"@, "windows"@, "command"@],
        ModifierTarget::Alt => seq!["alt"@, "option"@],
        ModifierTarget::Disabled => seq!["disabled"@, "none"@, "off"@],
    }
}

proof fn lemma_aliases_distinct()
    ensures
        "ctrl"@ != "control"@,
        "meta"@ != "control"@,
        "meta"@ != "ctrl"@,
        "win"@ != "control"@,
        "win"@ != "ctrl"@,
        "win"@ != "meta"@,
        "windows"@ != "control"@,
        "windows"@ != "ctrl"@,
        "windows"@ != "meta"@,
        "windows"@ != "win"@,
        "command"@ != "control"@,
        "command"@ != "ctrl"@,
        "command"@ != "meta"@,
        "command"@ != "win"@,
        "command"@ != "windows"@,
        "alt"@ != "control"@,
        "alt"@ != "ctrl"@,
        "alt"@ != "meta"@,
        "alt"@ != "win"@,
        "alt"@ != "windows"@,
        "alt"@ != "command"@,
        "option"@ != "control"@,
        "option"@ != "ctrl"@,
        "option"@ != "meta"@,
        "option"@ != "win"@,
        "option"@ != "windows"@,
        "option"@ != "command"@,
        "option"@ != "alt"@,
        "disabled"@ != "control"@,
        "disabled"@ != "ctrl"@,
        "disabled"@ != "meta"@,
        "disabled"@ != "win"@,
        "disabled"@ != "windows"@,
        "disabled"@ != "command"@,
        "disabled"@ != "alt"@,
        "disabled"@ != "option"@,
        "none"@ != "control"@,
        "none"@ != "ctrl"@,
        "none"@ != "meta"@,
        "none"@ != "win"@,
        "none"@ != "windows"@,
        "none"@ != "command"@,
        "none"@ != "alt"@,
        "none"@ != "option"@,
        "none"@ != "disabled"@,
        "off"@ != "control"@,
        "off"@ != "ctrl"@,
        "off"@ != "meta"@,
        "off"@ != "win"@,
        "off"@ != "windows"@,
        "off"@ != "command"@,
        "off"@ != "alt"@,
        "off"@ != "option"@,
        "off"@ != "disabled"@,
        "off"@ != "none"@,
{
    reveal_strlit("control");
    reveal_strlit("ctrl");
    reveal_strlit("meta");
    reveal_strlit("win");
    reveal_strlit("windows");
    reveal_strlit("command");
    reveal_strlit("alt");
    reveal_strlit("option");
    reveal_strlit("disabled");
    reveal_strlit("none");
    reveal_strlit("off");
    assert("ctrl"@.len() != "control"@.len());
    assert("meta"@.len() != "control"@.len());
    assert("meta"@ != "ctrl"@) by {
        assert("meta"@[0] != "ctrl"@[0]);
    }
    assert("win"@.len() != "control"@.len());
    assert("win"@.len() != "ctrl"@.len());
    assert("win"@.len() != "meta"@.len());
    assert("windows"@ != "control"@) by {
        assert("windows"@[0] != "control"@[0]);
    }
    assert("windows"@.len() != "ctrl"@.len());
    assert("windows"@.len() != "meta"@.len());
    assert("windows"@.len() != "win"@.len());
    assert("command"@ != "control"@) by {
        assert("command"@[2] != "control"@[2]);
    }
    assert("command"@.len() != "ctrl"@.len());
    assert("command"@.len() != "meta"@.len());
    assert("command"@.len() != "win"@.len());
    assert("command"@ != "windows"@) by {
        assert("command"@[0] != "windows"@[0]);
    }
    assert("alt"@.len() != "control"@.len());
    assert("alt"@.len() != "ctrl"@.len());
    assert("alt"@.len() != "meta"@.len());
    assert("alt"@ != "win"@) by {
        assert("alt"@[0] != "win"@[0]);
    }
    assert("alt"@.len() != "windows"@.len());
    assert("alt"@.len() != "command"@.len());
    assert("option"@.len() != "control"@.len());
    assert("option"@.len() != "ctrl"@.len());
    assert("option"@.len() != "meta"@.len());
    assert("option"@.len() != "win"@.len());
    assert("option"@.len() != "windows"@.len());
    assert("option"@.len() != "command"@.len());
    assert("option"@.len() != "alt"@.len());
    assert("disabled"@.len() != "control"@.len());
    assert("disabled"@.len() != "ctrl"@.len());
    assert("disabled"@.len() != "meta"@.len());
    assert("disabled"@.len() != "win"@.len());
    assert("disabled"@.len() != "windows"@.len());
    assert("disabled"@.len() != "command"@.len());
    assert("disabled"@.len() != "alt"@.len());
    assert("disabled"@.len() != "option"@.len());
    assert("none"@.len() != "control"@.len());
    assert("none"@ != "ctrl"@) by {
        assert("none"@[0] != "ctrl"@[0]);
    }
    assert("none"@ != "meta"@) by {
        assert("none"@[0] != "meta"@[0]);
    }
    assert("none"@.len() != "win"@.len());
    assert("none"@.len() != "windows"@.len());
    assert("none"@.len() != "command"@.len());
    assert("none"@.len() != "alt"@.len());
    assert("none"@.len() != "option"@.len());
    assert("none"@.len() != "disabled"@.len());
    assert("off"@.len() != "control"@.len());
    assert("off"@.len() != "ctrl"@.len());
    assert("off"@.len() != "meta"@.len());
    assert("off"@ != "win"@) by {
        assert("off"@[0] != "win"@[0]);
    }
    assert("off"@.len() != "windows"@.len());
    assert("off"@.len() != "command"@.len());
    assert("off"@ != "alt"@) by {
        assert("off"@[0] != "alt"@[0]);
    }
    assert("off"@.len() != "option"@.len());
    assert("off"@.len() != "disabled"@.len());
    assert("off"@.len() != "none"@.len());
}

/// Every name a target may be configured with reads as that target, and a
/// name reads as a target only when it is one of that target's names.
pub proof fn law_modifier_target_aliases(t: ModifierTarget, v: Seq<char>)
    ensures
        modifier_target_aliases(t).contains(v) ==> spec_parse_modifier_target(v) == Some(t),
        spec_parse_modifier_target(v) == Some(t) ==> modifier_target_aliases(t).contains(v),
{
    let a = modifier_target_aliases(t);
    if a.contains(v) {
        let i = choose|i: int| 0 <= i < a.len() && a[i] == v;
        lemma_aliases_distinct();
    }
    if spec_parse_modifier_target(v) == Some(t) {
        assert(a.contains(v)) by {
            match t {
                ModifierTarget::Control => {
                    if v == "control"@ {
                        assert(a[0] == v);
                    } else {
                        assert(a[1] == v);
                    }
                },
                ModifierTarget::Meta => {
                    if v == "meta"@ {
                        assert(a[0] == v);
                    } else if v == "win"@ {
                        assert(a[1] == v);
                    } else if v == "windows"@ {
                        assert(a[2] == v);
                    } else {
                        assert(a[3] == v);
                    }
                },
                ModifierTarget::Alt => {
                    if v == "alt"@ {
                        assert(a[0] == v);
                    } else {
                        assert(a[1] == v);
                    }
                },
                ModifierTarget::Disabled => {
                    if v == "disabled"@ {
                        assert(a[0] == v);
                    } else if v == "none"@ {
                        assert(a[1] == v);
                    } else {
                        assert(a[2] == v);
                    }
                },
            }
        }
    }
}

/// A connection profile records both of its ends: its name is the server's
/// platform, `-to-`, and the client's; it joins two platforms of the same
/// kind exactly when they are equal; and Command defaults to Meta exactly
/// between two Macs (Control otherwise).
pub proof fn law_profile_records_both_ends(s: Platform, c: Platform)
    requires
        s != Platform::Unknown,
        c != Platform::Unknown,
    ensures
        profile_name(spec_profile(s, c)) == platform_name(s) + "-to-"@ + platform_name(c),
        spec_is_same_platform(spec_profile(s, c)) == (s == c),
        spec_default_mapping(spec_profile(s, c)).command == (if s == Platform::MacOS && c == Platform::MacOS {
            ModifierTarget::Meta
        } else {
            ModifierTarget::Control
        }),
{
    reveal_strlit("windows");
    reveal_strlit("macos");
    reveal_strlit("linux");
    reveal_strlit("-to-");
    reveal_strlit("windows-to-windows");
    reveal_strlit("windows-to-macos");
    reveal_strlit("windows-to-linux");
    reveal_strlit("macos-to-windows");
    reveal_strlit("macos-to-macos");
    reveal_strlit("macos-to-linux");
    reveal_strlit("linux-to-windows");
    reveal_strlit("linux-to-macos");
    reveal_strlit("linux-to-linux");
    assert(profile_name(spec_profile(s, c)) =~= platform_name(s) + "-to-"@ + platform_name(c));
}

} // verus!

use vstd::prelude::*;

use crate::keyboard::{
    active_of, holders, key_event_spec, keyboard_wf, lemma_keycode_table_inverse, spec_flags_changed,
    spec_key_down, spec_key_up, spec_mac_keycode_to_windows_scancode, spec_modifier_group,
    spec_modifier_scancode, spec_press, spec_release, spec_sync_flags, spec_flag_down, lemma_press_wf, lemma_release_wf, releases_exactly, spec_update_group,
    windows_scancode_to_mac_keycode, with_active, KeyboardModel, ModifierGroup, CAPS_LOCK_SCANCODE,
};
use crate::protocol::{InputEvent, KeyState};

verus! {

/// Whether `s` is down after the key events of `h`: its last key-down or
/// key-up event is a key-down (a repeat leaves it as it was).
pub open spec fn key_down_after(h: Seq<InputEvent>, s: u16) -> bool
    decreases h.len(),
{
    if h.len() == 0 {
        false
    } else {
        let prev = key_down_after(h.drop_last(), s);
        match h.last() {
            InputEvent::Key { scancode, state } => if scancode == s {
                match state {
                    KeyState::Down => true,
                    KeyState::Up => false,
                    KeyState::Repeat => prev,
                }
            } else {
                prev
            },
            _ => prev,
        }
    }
}

/// Whether the key events of `h` alternate for every scancode: a key-down
/// only while the key is up, a key-up or a repeat only while it is down.
pub open spec fn keys_alternate(h: Seq<InputEvent>) -> bool
    decreases h.len(),
{
    if h.len() == 0 {
        true
    } else {
        let prev = h.drop_last();
        keys_alternate(prev) && match h.last() {
            InputEvent::Key { scancode, state } => match state {
                KeyState::Down => !key_down_after(prev, scancode),
                KeyState::Up => key_down_after(prev, scancode),
                KeyState::Repeat => key_down_after(prev, scancode),
            },
            _ => true,
        }
    }
}

/// The scancodes counted pressed are exactly those down after `h`.
pub open spec fn pressed_agrees(pressed: Map<u16, usize>, h: Seq<InputEvent>) -> bool {
    forall|s: u16| #[trigger] pressed.contains_key(s) == key_down_after(h, s)
}

/// A router whose key events so far are `h`: they alternate, the router
/// counts pressed exactly what they left down, and Caps Lock (which is only
/// ever sent as a tap) is not held.
pub open spec fn router_history(m: KeyboardModel, h: Seq<InputEvent>) -> bool {
    &&& keys_alternate(h)
    &&& pressed_agrees(m.pressed, h)
    &&& !m.pressed.contains_key(CAPS_LOCK_SCANCODE)
    &&& forall|s: u16| #[trigger] m.pressed.contains_key(s) ==> m.pressed[s] > 0
}

proof fn lemma_push_event(h: Seq<InputEvent>, e: InputEvent, s: u16)
    ensures
        (h.push(e)).drop_last() == h,
        key_down_after(h.push(e), s) == match e {
            InputEvent::Key { scancode, state } => if scancode == s {
                match state {
                    KeyState::Down => true,
                    KeyState::Up => false,
                    KeyState::Repeat => key_down_after(h, s),
                }
            } else {
                key_down_after(h, s)
            },
            _ => key_down_after(h, s),
        },
{
    assert(h.push(e).drop_last() =~= h);
}

proof fn lemma_press_history(m: KeyboardModel, h: Seq<InputEvent>, sc: u16)
    requires
        router_history(m, h),
        sc != CAPS_LOCK_SCANCODE,
        m.pressed.contains_key(sc) ==> m.pressed[sc] < 5,
    ensures
        router_history(spec_press(m, sc).0, h + spec_press(m, sc).1),
{
    let (m1, e) = spec_press(m, sc);
    if m.pressed.contains_key(sc) {
        assert(h + e =~= h);
        assert(m1.pressed.dom() =~= m.pressed.dom());
        assert(pressed_agrees(m1.pressed, h + e));
        assert forall|s: u16| #[trigger] m1.pressed.contains_key(s) implies m1.pressed[s] > 0 by {
            if s != sc {
                assert(m.pressed.contains_key(s));
            }
        }
    } else {
        let ev = key_event_spec(sc, KeyState::Down);
        assert(h + e =~= h.push(ev));
        assert(key_down_after(h, sc) == false);
        assert forall|s: u16| #[trigger] m1.pressed.contains_key(s) == key_down_after(h.push(ev), s) by {
            lemma_push_event(h, ev, s);
        }
        lemma_push_event(h, ev, sc);
        assert(keys_alternate(h.push(ev)));
        assert(pressed_agrees(m1.pressed, h + e));
        assert(!m1.pressed.contains_key(CAPS_LOCK_SCANCODE));
        assert forall|s: u16| #[trigger] m1.pressed.contains_key(s) implies m1.pressed[s] > 0 by {
            if s != sc {
                assert(m.pressed.contains_key(s));
            }
        }
    }
}

proof fn lemma_release_history(m: KeyboardModel, h: Seq<InputEvent>, sc: u16)
    requires
        router_history(m, h),
    ensures
        router_history(spec_release(m, sc).0, h + spec_release(m, sc).1),
{
    let (m1, e) = spec_release(m, sc);
    if !m.pressed.contains_key(sc) {
        assert(h + e =~= h);
    } else {
        let c: int = if m.pressed[sc] == 0 {
            0
        } else {
            m.pressed[sc] - 1
        };
        if c == 0 {
            let ev = key_event_spec(sc, KeyState::Up);
            assert(h + e =~= h.push(ev));
            assert(key_down_after(h, sc));
            assert forall|s: u16| #[trigger] m1.pressed.contains_key(s) == key_down_after(h.push(ev), s) by {
                lemma_push_event(h, ev, s);
            }
            lemma_push_event(h, ev, sc);
        } else {
            assert(h + e =~= h);
            assert(m1.pressed.dom() =~= m.pressed.dom());
        }
    }
}

/// No macOS key and no modifier target is sent as Caps Lock.
proof fn lemma_not_caps(keycode: u16, g: ModifierGroup, m: KeyboardModel)
    ensures
        spec_mac_keycode_to_windows_scancode(keycode) != Some(CAPS_LOCK_SCANCODE),
        spec_modifier_scancode(m.mapping, g, keycode) != Some(CAPS_LOCK_SCANCODE),
{
    lemma_keycode_table_inverse(keycode, CAPS_LOCK_SCANCODE);
    reveal(windows_scancode_to_mac_keycode);
}

#[verifier::spinoff_prover]
#[verifier::rlimit(60)]
proof fn lemma_update_group_history(m: KeyboardModel, h: Seq<InputEvent>, g: ModifierGroup, keycode: u16, down: bool)
    requires
        keyboard_wf(m),
        router_history(m, h),
    ensures
        keyboard_wf(spec_update_group(m, g, keycode, down).0),
        router_history(spec_update_group(m, g, keycode, down).0, h + spec_update_group(m, g, keycode, down).1),
{
    lemma_not_caps(keycode, g, m);
    if down {
        if active_of(m, g) is Some {
            assert(h + seq![] =~= h);
        } else {
            match spec_modifier_scancode(m.mapping, g, keycode) {
                None => {
                    assert(h + seq![] =~= h);
                },
                Some(sc) => {
                    let m1 = with_active(m, g, Some(sc));
                    assert forall|s: u16| s != sc implies holders(m1, s) == holders(m, s) by {}
                    assert(holders(m1, sc) == holders(m, sc) + 1);
                    lemma_press_wf(m, m1, sc);
                    lemma_press_history(m1, h, sc);
                },
            }
        }
    } else {
        match active_of(m, g) {
            Some(sc) => {
                let m1 = with_active(m, g, None);
                assert forall|s: u16| s != sc implies holders(m1, s) == holders(m, s) by {}
                assert(holders(m1, sc) + 1 == holders(m, sc));
                lemma_release_wf(m, m1, sc);
                lemma_release_history(m1, h, sc);
            },
            None => {
                assert(h + seq![] =~= h);
            },
        }
    }
}

proof fn lemma_key_down_history(m: KeyboardModel, h: Seq<InputEvent>, keycode: u16)
    requires
        keyboard_wf(m),
        router_history(m, h),
    ensures
        router_history(spec_key_down(m, keycode).0, h + spec_key_down(m, keycode).1),
{
    lemma_not_caps(keycode, ModifierGroup::Shift, m);
    if spec_modifier_group(keycode) is None {
        match spec_mac_keycode_to_windows_scancode(keycode) {
            None => {
                assert(h + seq![] =~= h);
            },
            Some(sc) => {
                if m.regular.contains(keycode) {
                    lemma_keycode_table_inverse(keycode, sc);
                    assert(holders(m, sc) > 0);
                    assert(m.pressed.contains_key(sc));
                    let ev = key_event_spec(sc, KeyState::Repeat);
                    assert(h + seq![ev] =~= h.push(ev));
                    assert forall|s: u16| #[trigger] m.pressed.contains_key(s) == key_down_after(h.push(ev), s) by {
                        lemma_push_event(h, ev, s);
                    }
                    lemma_push_event(h, ev, sc);
                } else {
                    let m1 = KeyboardModel { regular: m.regular.insert(keycode), ..m };
                    lemma_keycode_table_inverse(keycode, sc);
                    assert forall|s: u16| s != sc implies holders(m1, s) == holders(m, s) by {
                        lemma_keycode_table_inverse(keycode, s);
                    }
                    lemma_press_wf(m, m1, sc);
                    lemma_press_history(m1, h, sc);
                }
            },
        }
    } else {
        assert(h + seq![] =~= h);
    }
}

proof fn lemma_key_up_history(m: KeyboardModel, h: Seq<InputEvent>, keycode: u16)
    requires
        router_history(m, h),
    ensures
        router_history(spec_key_up(m, keycode).0, h + spec_key_up(m, keycode).1),
{
    if spec_modifier_group(keycode) is None {
        match spec_mac_keycode_to_windows_scancode(keycode) {
            None => {
                assert(h + seq![] =~= h);
            },
            Some(sc) => {
                if m.regular.contains(keycode) {
                    lemma_release_history(KeyboardModel { regular: m.regular.remove(keycode), ..m }, h, sc);
                } else {
                    assert(h + seq![] =~= h);
                }
            },
        }
    } else {
        assert(h + seq![] =~= h);
    }
}

proof fn lemma_flags_changed_history(m: KeyboardModel, h: Seq<InputEvent>, keycode: u16, flags: u64)
    requires
        keyboard_wf(m),
        router_history(m, h),
    ensures
        router_history(spec_flags_changed(m, keycode, flags).0, h + spec_flags_changed(m, keycode, flags).1),
{
    if keycode == 57 {
        let d = key_event_spec(CAPS_LOCK_SCANCODE, KeyState::Down);
        let u = key_event_spec(CAPS_LOCK_SCANCODE, KeyState::Up);
        assert(h + seq![d, u] =~= h.push(d).push(u));
        assert(!key_down_after(h, CAPS_LOCK_SCANCODE));
        lemma_push_event(h, d, CAPS_LOCK_SCANCODE);
        lemma_push_event(h.push(d), u, CAPS_LOCK_SCANCODE);
        assert forall|s: u16| #[trigger] m.pressed.contains_key(s) == key_down_after(h.push(d).push(u), s) by {
            lemma_push_event(h, d, s);
            lemma_push_event(h.push(d), u, s);
        }
        assert(keys_alternate(h.push(d)));
        assert(keys_alternate(h.push(d).push(u)));
    } else {
        match spec_modifier_group(keycode) {
            None => {
                assert(h + seq![] =~= h);
            },
            Some(g) => {
                lemma_update_group_history(m, h, g, keycode, spec_flag_down(g, flags));
            },
        }
    }
}

#[verifier::opaque]
spec fn router_good(m: KeyboardModel, h: Seq<InputEvent>) -> bool {
    keyboard_wf(m) && router_history(m, h)
}

#[verifier::opaque]
spec fn group_step(m: KeyboardModel, g: ModifierGroup, keycode: u16, f: u64) -> (KeyboardModel, Seq<InputEvent>) {
    spec_update_group(m, g, keycode, spec_flag_down(g, f))
}

proof fn lemma_group_good(m: KeyboardModel, h: Seq<InputEvent>, g: ModifierGroup, keycode: u16, f: u64)
    requires
        router_good(m, h),
    ensures
        router_good(group_step(m, g, keycode, f).0, h + group_step(m, g, keycode, f).1),
{
    reveal(router_good);
    reveal(group_step);
    lemma_update_group_history(m, h, g, keycode, spec_flag_down(g, f));
}

proof fn lemma_sync_flags_parts(m: KeyboardModel, f: u64)
    ensures
        ({
            let r1 = group_step(m, ModifierGroup::Command, 55, f);
            let r2 = group_step(r1.0, ModifierGroup::Control, 59, f);
            let r3 = group_step(r2.0, ModifierGroup::Option, 58, f);
            let r4 = group_step(r3.0, ModifierGroup::Shift, 56, f);
            spec_sync_flags(m, f) == (r4.0, r1.1 + r2.1 + r3.1 + r4.1)
        }),
{
    reveal(group_step);
}

#[verifier::spinoff_prover]
#[verifier::rlimit(60)]
proof fn lemma_sync_flags_history(m: KeyboardModel, h: Seq<InputEvent>, f: u64)
    requires
        keyboard_wf(m),
        router_history(m, h),
    ensures
        router_history(spec_sync_flags(m, f).0, h + spec_sync_flags(m, f).1),
{
    assert(router_good(m, h)) by {
        reveal(router_good);
    }
    let r1 = group_step(m, ModifierGroup::Command, 55, f);
    lemma_group_good(m, h, ModifierGroup::Command, 55, f);
    let h1 = h + r1.1;
    let r2 = group_step(r1.0, ModifierGroup::Control, 59, f);
    lemma_group_good(r1.0, h1, ModifierGroup::Control, 59, f);
    let h2 = h1 + r2.1;
    let r3 = group_step(r2.0, ModifierGroup::Option, 58, f);
    lemma_group_good(r2.0, h2, ModifierGroup::Option, 58, f);
    let h3 = h2 + r3.1;
    let r4 = group_step(r3.0, ModifierGroup::Shift, 56, f);
    lemma_group_good(r3.0, h3, ModifierGroup::Shift, 56, f);
    let h4 = h3 + r4.1;
    lemma_sync_flags_parts(m, f);
    assert(h + (r1.1 + r2.1 + r3.1 + r4.1) =~= h4);
    assert(router_history(r4.0, h4)) by {
        reveal(router_good);
    }
}

/// Every call of the keyboard router keeps its key events alternating: a
/// scancode goes down only while it is up, and up or repeated only while
/// it is down, over the whole history of events the router returned; and
/// the router keeps counting pressed exactly what that history left down.
pub proof fn law_router_keys_alternate(m: KeyboardModel, h: Seq<InputEvent>, keycode: u16, flags: u64)
    requires
        keyboard_wf(m),
        router_history(m, h),
    ensures
        router_history(spec_key_down(m, keycode).0, h + spec_key_down(m, keycode).1),
        router_history(spec_key_up(m, keycode).0, h + spec_key_up(m, keycode).1),
        router_history(spec_flags_changed(m, keycode, flags).0, h + spec_flags_changed(m, keycode, flags).1),
        router_history(spec_sync_flags(m, flags).0, h + spec_sync_flags(m, flags).1),
{
    lemma_key_down_history(m, h, keycode);
    lemma_key_up_history(m, h, keycode);
    lemma_flags_changed_history(m, h, keycode, flags);
    lemma_sync_flags_history(m, h, flags);
}

proof fn lemma_release_prefix(m: KeyboardModel, h: Seq<InputEvent>, r: Seq<InputEvent>, k: int)
    requires
        router_history(m, h),
        releases_exactly(m.pressed, r),
        0 <= k <= r.len(),
    ensures
        keys_alternate(h + r.take(k)),
        forall|s: u16| #[trigger] key_down_after(h + r.take(k), s) == (key_down_after(h, s) && !(exists|i: int|
            0 <= i < k && r[i] == key_event_spec(s, KeyState::Up))),
    decreases k,
{
    if k == 0 {
        assert(h + r.take(0) =~= h);
    } else {
        lemma_release_prefix(m, h, r, k - 1);
        let prev = h + r.take(k - 1);
        let ev = r[k - 1];
        assert(h + r.take(k) =~= prev.push(ev));
        let sc = ev->Key_scancode;
        assert(ev == key_event_spec(sc, KeyState::Up));
        assert(m.pressed.contains_key(sc));
        assert(!(exists|i: int| 0 <= i < k - 1 && r[i] == key_event_spec(sc, KeyState::Up))) by {
            if exists|i: int| 0 <= i < k - 1 && r[i] == key_event_spec(sc, KeyState::Up) {
                let i = choose|i: int| 0 <= i < k - 1 && r[i] == key_event_spec(sc, KeyState::Up);
                assert(r[i] == r[k - 1]);
            }
        }
        lemma_push_event(prev, ev, sc);
        assert(keys_alternate(prev.push(ev)));
        assert forall|s: u16| #[trigger] key_down_after(h + r.take(k), s) == (key_down_after(h, s) && !(exists|i: int|
            0 <= i < k && r[i] == key_event_spec(s, KeyState::Up))) by {
            lemma_push_event(prev, ev, s);
            if s == sc {
                assert(r[k - 1] == key_event_spec(s, KeyState::Up));
            } else {
                if exists|i: int| 0 <= i < k && r[i] == key_event_spec(s, KeyState::Up) {
                    let i = choose|i: int| 0 <= i < k && r[i] == key_event_spec(s, KeyState::Up);
                    assert(i < k - 1);
                }
            }
        }
    }
}

/// Releasing everything ends the history with every key up: the key-ups
/// `release_all` returns keep the events alternating, and afterwards no
/// scancode is down, so the emptied router agrees with the history.
pub proof fn law_release_all_balances(m: KeyboardModel, h: Seq<InputEvent>, r: Seq<InputEvent>)
    requires
        router_history(m, h),
        releases_exactly(m.pressed, r),
    ensures
        keys_alternate(h + r),
        forall|s: u16| !(#[trigger] key_down_after(h + r, s)),
        router_history(KeyboardModel { pressed: Map::empty(), ..m }, h + r),
{
    lemma_release_prefix(m, h, r, r.len() as int);
    assert(r.take(r.len() as int) =~= r);
    assert forall|s: u16| !(#[trigger] key_down_after(h + r, s)) by {
        if m.pressed.contains_key(s) {
            let i = choose|i: int| 0 <= i < r.len() && r[i] == key_event_spec(s, KeyState::Up);
        }
    }
}

/// A router with nothing pressed (as a new one, or one after
/// `release_all`) starts an empty history in order.
pub proof fn law_router_history_starts(m: KeyboardModel)
    requires
        m.pressed == Map::<u16, usize>::empty(),
    ensures
        router_history(m, Seq::<InputEvent>::empty()),
{
}

/// After `release_all` nothing is held: a key-up sends nothing, and a
/// mapped regular key goes down with a key-down, not a repeat.
pub proof fn law_released_router_starts_over(m: KeyboardModel, keycode: u16)
    requires
        m.pressed == Map::<u16, usize>::empty(),
        m.regular == Set::<u16>::empty(),
        m.command is None,
        m.control is None,
        m.option is None,
        m.shift is None,
    ensures
        spec_key_up(m, keycode).1 == Seq::<InputEvent>::empty(),
        spec_modifier_group(keycode) is None && spec_mac_keycode_to_windows_scancode(keycode) is Some
            ==> spec_key_down(m, keycode).1 == seq![
            key_event_spec(spec_mac_keycode_to_windows_scancode(keycode)->0, KeyState::Down),
        ],
{
}

} // verus!

use deskbridge::config::ModifierTarget;
use deskbridge::keyboard::{key_event, KeyboardRouter, ModifierMapping};
use deskbridge::platform::{ConnectionProfile, Platform};
use deskbridge::protocol::{InputEvent, KeyState};

#[test]
fn duplicate_modifier_targets_use_reference_counts() {
    let mapping = ModifierMapping::new(
        ModifierTarget::Control,
        ModifierTarget::Control,
        ModifierTarget::Alt,
    );
    let mut keyboard = KeyboardRouter::new(mapping);
    let command_down = keyboard.flags_changed(55, 0x0010_0000);
    let control_down = keyboard.flags_changed(59, 0x0014_0000);
    let command_up = keyboard.flags_changed(55, 0x0004_0000);
    let control_up = keyboard.flags_changed(59, 0);

    assert_eq!(command_down, vec![key_event(29, KeyState::Down)]);
    assert!(control_down.is_empty());
    assert!(command_up.is_empty());
    assert_eq!(control_up, vec![key_event(29, KeyState::Up)]);
}

#[test]
fn repeated_flags_event_does_not_toggle_modifier_off() {
    let mapping = ModifierMapping::new(
        ModifierTarget::Meta,
        ModifierTarget::Control,
        ModifierTarget::Alt,
    );
    let mut keyboard = KeyboardRouter::new(mapping);
    assert_eq!(
        keyboard.flags_changed(55, 0x0010_0000),
        vec![key_event(347, KeyState::Down)]
    );
    assert!(keyboard.flags_changed(55, 0x0010_0000).is_empty());
    assert_eq!(
        keyboard.flags_changed(55, 0),
        vec![key_event(347, KeyState::Up)]
    );
}

#[test]
fn first_autorepeat_after_crossing_still_has_a_balanced_down_and_up() {
    let mapping = ModifierMapping::new(
        ModifierTarget::Meta,
        ModifierTarget::Control,
        ModifierTarget::Alt,
    );
    let mut keyboard = KeyboardRouter::new(mapping);
    assert_eq!(
        keyboard.key_down(0, true),
        vec![key_event(30, KeyState::Down)]
    );
    assert_eq!(
        keyboard.key_down(0, true),
        vec![key_event(30, KeyState::Repeat)]
    );
    assert_eq!(keyboard.key_up(0), vec![key_event(30, KeyState::Up)]);
}

#[test]
fn release_all_lets_go_of_every_held_key() {
    let mapping = ModifierMapping::new(
        ModifierTarget::Meta,
        ModifierTarget::Control,
        ModifierTarget::Alt,
    );
    let mut keyboard = KeyboardRouter::new(mapping);
    keyboard.key_down(0, false);
    keyboard.flags_changed(55, 0x0010_0000);
    let mut released = keyboard.release_all();
    released.sort_by_key(|e| match e {
        InputEvent::Key { scancode, .. } => *scancode,
        _ => 0,
    });
    assert_eq!(
        released,
        vec![key_event(30, KeyState::Up), key_event(347, KeyState::Up)]
    );
    assert!(keyboard.release_all().is_empty());
    assert!(keyboard.key_up(0).is_empty());
}

#[test]
fn disabled_modifiers_send_nothing() {
    let mapping = ModifierMapping::new(
        ModifierTarget::Disabled,
        ModifierTarget::Control,
        ModifierTarget::Alt,
    );
    let mut keyboard = KeyboardRouter::new(mapping);
    assert!(keyboard.flags_changed(55, 0x0010_0000).is_empty());
    assert!(keyboard.flags_changed(55, 0).is_empty());
}

#[test]
fn profile_mapping_reads_overrides() {
    let profile = ConnectionProfile::new(Platform::MacOS, Platform::Windows);
    let mapping = ModifierMapping::for_profile(profile, Some(" alt "), None, Some("bogus"));
    assert_eq!(mapping.command, ModifierTarget::Alt);
    assert_eq!(mapping.control, ModifierTarget::Control);
    assert_eq!(mapping.option, ModifierTarget::Alt);
}

#[test]
fn router_events_alternate_and_release_all_lets_go_of_what_is_down() {
    let mapping = ModifierMapping::new(
        ModifierTarget::Control,
        ModifierTarget::Control,
        ModifierTarget::Alt,
    );
    let mut keyboard = KeyboardRouter::new(mapping);
    assert_eq!(keyboard.key_down(0, false), vec![key_event(30, KeyState::Down)]);
    assert_eq!(keyboard.key_down(0, true), vec![key_event(30, KeyState::Repeat)]);
    assert_eq!(keyboard.flags_changed(55, 0x0010_0000), vec![key_event(29, KeyState::Down)]);
    assert_eq!(
        keyboard.flags_changed(57, 0),
        vec![key_event(58, KeyState::Down), key_event(58, KeyState::Up)]
    );
    let mut released = keyboard.release_all();
    released.sort_by_key(|e| match e {
        InputEvent::Key { scancode, .. } => *scancode,
        _ => 0,
    });
    assert_eq!(released, vec![key_event(29, KeyState::Up), key_event(30, KeyState::Up)]);
    assert!(keyboard.release_all().is_empty());
    assert!(keyboard.key_up(0).is_empty());
    assert_eq!(keyboard.key_down(0, false), vec![key_event(30, KeyState::Down)]);
}

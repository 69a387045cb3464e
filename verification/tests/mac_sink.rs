use deskbridge::keymap::{FLAG_ALPHA_SHIFT, FLAG_COMMAND, FLAG_CONTROL, FLAG_SHIFT};
use deskbridge::mac_input::{MacAction, MacInputSink};
use deskbridge::protocol::{KeyState, MouseButton};

fn key(keycode: u16, down: bool, flags: u64) -> MacAction {
    MacAction::Key { keycode, down, flags, autorepeat: false }
}

#[test]
fn keys_are_pressed_once_and_released() {
    let mut sink = MacInputSink::new((1440, 900));
    assert_eq!(sink.key(30, KeyState::Down, 0), vec![key(0, true, 0)]);
    assert!(sink.key(30, KeyState::Down, 5).is_empty());
    assert_eq!(
        sink.key(30, KeyState::Repeat, 10),
        vec![MacAction::Key { keycode: 0, down: true, flags: 0, autorepeat: true }]
    );
    assert_eq!(sink.key(30, KeyState::Up, 20), vec![key(0, false, 0)]);
    assert!(sink.key(999, KeyState::Down, 30).is_empty());
}

#[test]
fn a_tapped_shift_switches_input_source_and_a_held_one_modifies() {
    let mut sink = MacInputSink::new((1440, 900));
    assert!(sink.key(42, KeyState::Down, 0).is_empty());
    assert_eq!(sink.key(42, KeyState::Up, 10), vec![MacAction::CycleInputSource]);
    sink.note_input_source_switched(10);
    assert!(sink.key(42, KeyState::Down, 50).is_empty());
    assert!(sink.key(42, KeyState::Up, 100).is_empty());
    assert!(sink.key(42, KeyState::Down, 400).is_empty());
    assert_eq!(
        sink.key(30, KeyState::Down, 410),
        vec![key(56, true, FLAG_SHIFT), key(0, true, FLAG_SHIFT)]
    );
    assert_eq!(sink.key(42, KeyState::Up, 420), vec![key(56, false, 0)]);
    assert_eq!(sink.input_source_hotkey().len(), 4);
}

#[test]
fn caps_lock_is_kept_here_and_flips_shift_for_letters() {
    let mut sink = MacInputSink::new((1440, 900));
    assert_eq!(
        sink.key(58, KeyState::Down, 0),
        vec![key(57, true, FLAG_ALPHA_SHIFT), key(57, false, FLAG_ALPHA_SHIFT)]
    );
    assert!(sink.key(58, KeyState::Up, 0).is_empty());
    assert_eq!(sink.key(30, KeyState::Down, 0), vec![key(0, true, FLAG_ALPHA_SHIFT | FLAG_SHIFT)]);
    assert_eq!(sink.key(2, KeyState::Down, 0), vec![key(18, true, FLAG_ALPHA_SHIFT)]);
}

#[test]
fn print_screen_takes_a_screenshot() {
    let mut sink = MacInputSink::new((1440, 900));
    let actions = sink.key(311, KeyState::Down, 0);
    assert_eq!(actions.len(), 8);
    assert_eq!(actions[0], key(55, true, FLAG_COMMAND));
    assert_eq!(actions[3], key(21, true, FLAG_COMMAND | FLAG_CONTROL | FLAG_SHIFT));
    assert_eq!(actions[7], key(55, false, 0));
    assert!(sink.key(311, KeyState::Up, 0).is_empty());
}

#[test]
fn backspace_repeats_at_a_steady_pace() {
    let mut sink = MacInputSink::new((1440, 900));
    assert_eq!(sink.key(14, KeyState::Down, 1000), vec![key(51, true, 0)]);
    assert!(sink.key(14, KeyState::Repeat, 1030).is_empty());
    assert_eq!(sink.key(14, KeyState::Repeat, 1060).len(), 1);
    assert!(sink.key(14, KeyState::Repeat, 1100).is_empty());
    assert_eq!(sink.key(14, KeyState::Repeat, 4100).len(), 1);
    assert!(sink.key(14, KeyState::Repeat, 4140).is_empty());
    assert_eq!(sink.key(14, KeyState::Repeat, 4145).len(), 1);
}

#[test]
fn pointer_moves_on_the_screen_and_buttons_count_clicks() {
    let mut sink = MacInputSink::new((1440, 900));
    assert_eq!(
        sink.mouse_enter(-5, 2000, (1440, 900)),
        MacAction::Mouse { event_type: 1, button: 0, x: 0, y: 899, click_count: 0, dx: 0, dy: 0 }
    );
    assert_eq!(
        sink.mouse_delta(10, -10),
        MacAction::Mouse { event_type: 1, button: 0, x: 10, y: 889, click_count: 0, dx: 10, dy: -10 }
    );
    let first = sink.mouse_button(MouseButton::Left, true, 0);
    assert_eq!(first, MacAction::Mouse { event_type: 2, button: 0, x: 10, y: 889, click_count: 1, dx: 0, dy: 0 });
    assert_eq!(
        sink.mouse_delta(3, 0),
        MacAction::Mouse { event_type: 8, button: 0, x: 13, y: 889, click_count: 0, dx: 3, dy: 0 }
    );
    let up = sink.mouse_button(MouseButton::Left, false, 50);
    assert_eq!(up, MacAction::Mouse { event_type: 3, button: 0, x: 13, y: 889, click_count: 1, dx: 0, dy: 0 });
    let second = sink.mouse_button(MouseButton::Left, true, 200);
    assert_eq!(second, MacAction::Mouse { event_type: 2, button: 0, x: 13, y: 889, click_count: 2, dx: 0, dy: 0 });
    sink.mouse_button(MouseButton::Left, false, 250);
    let late = sink.mouse_button(MouseButton::Left, true, 900);
    assert_eq!(late, MacAction::Mouse { event_type: 2, button: 0, x: 13, y: 889, click_count: 1, dx: 0, dy: 0 });
    let other = sink.mouse_button(MouseButton::Extra(4), true, 910);
    assert_eq!(other, MacAction::Mouse { event_type: 6, button: 2, x: 13, y: 889, click_count: 1, dx: 0, dy: 0 });
    assert!(sink.delta_fits(5, 5));
}

#[test]
fn held_keys_are_released_with_no_flags() {
    let mut sink = MacInputSink::new((100, 100));
    sink.key(30, KeyState::Down, 0);
    sink.key(48, KeyState::Down, 0);
    let mut released = sink.release_all();
    released.sort_by_key(|a| match a { MacAction::Key { keycode, .. } => *keycode, _ => 0 });
    assert_eq!(released, vec![key(0, false, 0), key(11, false, 0)]);
    assert!(sink.release_all().is_empty());
}

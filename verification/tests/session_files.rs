use deskbridge::cli::is_stop_command;
use deskbridge::config_file::config_path;
use deskbridge::file_transfer::{note_received, top_part};
use deskbridge::linux_capture::grab_outcome;

#[test]
fn the_settings_window_stops_a_session_with_a_stop_line() {
    assert!(is_stop_command("stop"));
    assert!(is_stop_command("  STOP\r"));
    assert!(is_stop_command("Stop\n"));
    assert!(!is_stop_command("stopped"));
    assert!(!is_stop_command(""));
}

#[test]
fn the_config_file_sits_next_to_the_program_unless_overridden() {
    assert_eq!(config_path(None, "/opt/deskbridge"), "/opt/deskbridge/config.ini");
    assert_eq!(config_path(Some("/etc/db"), "/opt/deskbridge"), "/etc/db/config.ini");
}

#[test]
fn received_top_level_entries_are_noted_once() {
    assert_eq!(top_part("dir/a.txt", false), Some("dir".to_string()));
    assert_eq!(top_part("a.txt", false), Some("a.txt".to_string()));
    assert_eq!(top_part("dir\\a.txt", true), Some("dir".to_string()));
    assert_eq!(top_part("dir\\a.txt", false), Some("dir\\a.txt".to_string()));
    assert_eq!(top_part("", false), None);
    let mut received = Vec::new();
    note_received(&mut received, "/r/dir".to_string());
    note_received(&mut received, "/r/b".to_string());
    note_received(&mut received, "/r/dir".to_string());
    assert_eq!(received, vec!["/r/dir".to_string(), "/r/b".to_string()]);
}

#[test]
fn a_refused_grab_lets_go_of_the_devices_grabbed_before_it() {
    let all = grab_outcome(&[true, true, true]);
    assert!(all.grabbed);
    assert!(all.release.is_empty());
    let partial = grab_outcome(&[true, true, false]);
    assert!(!partial.grabbed);
    assert_eq!(partial.release, vec![0, 1]);
    let first = grab_outcome(&[false]);
    assert!(!first.grabbed);
    assert!(first.release.is_empty());
}

use deskbridge::cli::{parse_args, value_after, wants_help, Command};
use deskbridge::config::{default_language, Language, ModifierTarget, Role};
use deskbridge::config_file::{ConfigSettings, ScrollSetting};
use deskbridge::display::{first_available, flag_enabled, DisplayServer};
use deskbridge::platform::{ConnectionProfile, Platform};
use deskbridge::server::Edge;

fn args(list: &[&str]) -> Vec<String> {
    list.iter().map(|s| s.to_string()).collect()
}

#[test]
fn platforms_round_trip_their_bytes_and_names() {
    for p in [Platform::Unknown, Platform::Windows, Platform::MacOS, Platform::Linux] {
        assert_eq!(Platform::from_byte(p.as_byte()), p);
        assert_eq!(Platform::from_os_name(p.as_str()), p);
    }
    assert_eq!(Platform::Windows.as_byte(), 1);
    assert_eq!(Platform::Linux.as_byte(), 3);
    assert_eq!(Platform::from_byte(200), Platform::Unknown);
    assert_eq!(Platform::from_os_name("freebsd"), Platform::Unknown);
}

#[test]
fn connection_profiles_name_both_ends() {
    let p = ConnectionProfile::new(Platform::Windows, Platform::MacOS);
    assert_eq!(p, ConnectionProfile::WindowsToMacOS);
    assert_eq!(p.as_str(), "windows-to-macos");
    assert!(!p.is_same_platform());
    assert!(ConnectionProfile::new(Platform::Linux, Platform::Linux).is_same_platform());
    assert_eq!(ConnectionProfile::new(Platform::Unknown, Platform::Linux), ConnectionProfile::Unknown);
    assert_eq!(
        ConnectionProfile::local_client(Platform::Windows, Platform::Linux),
        ConnectionProfile::WindowsToLinux
    );
    assert_eq!(
        ConnectionProfile::local_server(Platform::MacOS, Platform::Linux),
        ConnectionProfile::LinuxToMacOS
    );
}

#[test]
fn names_parse_back() {
    assert_eq!(Language::parse("chinese"), Some(Language::Chinese));
    assert_eq!(Language::parse("en"), Some(Language::English));
    assert_eq!(Language::parse("EN"), None);
    assert_eq!(default_language(), Language::English);
    assert_eq!(ModifierTarget::parse("win"), Some(ModifierTarget::Meta));
    assert_eq!(ModifierTarget::parse("off"), Some(ModifierTarget::Disabled));
    assert_eq!(ModifierTarget::parse("option"), Some(ModifierTarget::Alt));
    assert_eq!(ModifierTarget::parse("shift"), None);
    assert_eq!(Edge::parse("left"), Ok(Edge::Left));
    assert_eq!(Edge::parse("up"), Err("edge must be left or right".to_string()));
    assert_eq!(Edge::Right.as_str(), "right");
}

#[test]
fn configuration_file_is_read_line_by_line() {
    let text = "role=server\nlanguage = zh\r\nbind= 10.0.0.1:1 \nedge=left\nedge=up\nscroll_scale=2.5\nscroll_frame_ms=12\nscroll_frame_ms=x\nmac_option_mapping=meta\nnonsense\nscroll_max_step=7\n";
    let c = ConfigSettings::parse(text);
    assert_eq!(c.role, Role::Server);
    assert_eq!(c.language, Language::Chinese);
    assert_eq!(c.bind, "10.0.0.1:1");
    assert_eq!(c.server, "192.168.1.10:24920");
    assert_eq!(c.edge, Edge::Left);
    assert_eq!(c.scroll_frame_ms, 12);
    assert_eq!(c.mac_command_mapping, ModifierTarget::Control);
    assert_eq!(c.mac_option_mapping, ModifierTarget::Meta);
    assert_eq!(
        c.scroll,
        vec![(ScrollSetting::Scale, "2.5".to_string()), (ScrollSetting::MaxStep, "7".to_string())]
    );
}

#[test]
fn configuration_defaults_and_unknown_roles() {
    let c = ConfigSettings::parse("");
    assert_eq!(c.role, Role::Client);
    assert_eq!(c.edge, Edge::Right);
    assert_eq!(c.scroll_frame_ms, 8);
    assert_eq!(c.mac_option_mapping, ModifierTarget::Alt);
    let c = ConfigSettings::parse("role=Server");
    assert_eq!(c.role, Role::Client);
}

#[test]
fn command_line_selects_server_or_client() {
    match parse_args(&args(&["server", "--edge", "left"])).unwrap() {
        Command::Server { bind, edge } => {
            assert_eq!(bind, "0.0.0.0:24920");
            assert_eq!(edge, Edge::Left);
        }
        Command::Client { .. } => panic!("expected server"),
    }
    match parse_args(&args(&["client", "--server", "1.2.3.4:5"])).unwrap() {
        Command::Client { server } => assert_eq!(server, "1.2.3.4:5"),
        Command::Server { .. } => panic!("expected client"),
    }
    assert_eq!(
        parse_args(&args(&["client"])).err(),
        Some("client mode requires --server HOST:PORT".to_string())
    );
    assert_eq!(
        parse_args(&args(&["server", "--edge", "top"])).err(),
        Some("edge must be left or right".to_string())
    );
    assert_eq!(parse_args(&args(&[])).err(), Some("missing command: server or client".to_string()));
    assert_eq!(value_after(&args(&["a", "--bind"]), "--bind"), None);
    assert!(wants_help(&args(&["server", "-h"])));
    assert!(!wants_help(&args(&["server"])));
}

#[test]
fn display_server_and_flags() {
    assert_eq!(DisplayServer::detect(Some("WAYLAND"), false, true), DisplayServer::Wayland);
    assert_eq!(DisplayServer::detect(Some("x11"), true, false), DisplayServer::X11);
    assert_eq!(DisplayServer::detect(Some("other"), true, true), DisplayServer::Wayland);
    assert_eq!(DisplayServer::detect(None, false, true), DisplayServer::X11);
    assert_eq!(DisplayServer::detect(None, false, false), DisplayServer::Unknown);
    assert_eq!(DisplayServer::Unknown.as_str(), "unknown");
    assert!(flag_enabled(Some(" Yes ")));
    assert!(flag_enabled(Some("1")));
    assert!(!flag_enabled(Some("0")));
    assert!(!flag_enabled(None));
    assert_eq!(first_available(&["a", "b", "c"], &[false, true, true]), Some("b"));
    assert_eq!(first_available(&["a"], &[false]), None);
}

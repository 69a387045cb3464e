use deskbridge::config::Role;
use deskbridge::config_file::ConfigSettings;
use deskbridge::launch::{u64_to_decimal, ScrollTexts, ServiceLaunch};
use deskbridge::server::Edge;

fn scroll_texts() -> ScrollTexts {
    ScrollTexts {
        scale: format!("{:.3}", 1.35f64),
        response: format!("{:.3}", 0.38f64),
        max_step: format!("{:.1}", 120.0f64),
    }
}

#[test]
fn server_launch_keeps_modifier_mapping_out_of_the_ui() {
    let mut config = ConfigSettings::defaults();
    config.role = Role::Server;
    config.edge = Edge::Left;
    let launch = ServiceLaunch::from_config(&config, &scroll_texts());

    assert_eq!(
        launch.args,
        ["server", "--bind", "0.0.0.0:24920", "--edge", "left"]
    );
    assert!(launch
        .env
        .iter()
        .any(|(key, _)| key == "DESKBRIDGE_MAC_COMMAND_MAPPING"));
}

#[test]
fn client_launch_is_a_language_neutral_process_contract() {
    let config = ConfigSettings::defaults();
    let launch = ServiceLaunch::from_config(&config, &scroll_texts());

    assert_eq!(
        launch.preview(),
        "deskbridge client --server 192.168.1.10:24920"
    );
    assert!(launch
        .env
        .iter()
        .any(|(key, _)| key == "DESKBRIDGE_SCROLL_FRAME_MS"));
}

#[test]
fn client_launch_passes_scroll_settings() {
    let config = ConfigSettings::defaults();
    let launch = ServiceLaunch::from_config(&config, &scroll_texts());
    assert_eq!(
        launch.env,
        vec![
            ("DESKBRIDGE_SCROLL_SCALE".to_string(), "1.350".to_string()),
            ("DESKBRIDGE_SCROLL_RESPONSE".to_string(), "0.380".to_string()),
            ("DESKBRIDGE_SCROLL_MAX_STEP".to_string(), "120.0".to_string()),
            ("DESKBRIDGE_SCROLL_FRAME_MS".to_string(), "8".to_string()),
        ]
    );
}

#[test]
fn numbers_are_written_in_decimal() {
    assert_eq!(u64_to_decimal(0), "0");
    assert_eq!(u64_to_decimal(8), "8");
    assert_eq!(u64_to_decimal(1200), "1200");
    assert_eq!(u64_to_decimal(u64::MAX), u64::MAX.to_string());
}

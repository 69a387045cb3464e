use deskbridge::config::{Language, ModifierTarget, Role};
use deskbridge::config_file::ConfigSettings;
use deskbridge::display::{gui_environment, EnvSetting};
use deskbridge::keymap::KEY_UP;
use deskbridge::linux_capture::{classify_event, CaptureStep, LinuxCapture, RawEventKind};
use deskbridge::monitor_layout::{
    parse_monitor_geometry, wlr_randr_layout, xrandr_layout, LayoutOverflow,
};
use deskbridge::motion::{LocalScreenLayout, PendingPointer};
use deskbridge::pointer::PointerRouter;
use deskbridge::protocol::{InputEvent, KeyState, MouseButton};
use deskbridge::server::Edge;

fn layout(x: i32, y: i32, w: i32, h: i32) -> LocalScreenLayout {
    LocalScreenLayout { origin_x: x, origin_y: y, width: w, height: h }
}

fn motion(dx: i32, dy: i32) -> PendingPointer {
    PendingPointer { dx, dy, wheel: 0, hwheel: 0 }
}

#[test]
fn monitor_geometry_is_read_with_signed_positions() {
    assert_eq!(parse_monitor_geometry("+*1920/344x1080/194+0+0"), Some((1920, 1080, 0, 0)));
    assert_eq!(parse_monitor_geometry("800/1x600/1+-800+10"), Some((800, 600, -800, 10)));
    assert_eq!(parse_monitor_geometry("eDP-1"), None);
    assert_eq!(parse_monitor_geometry("1920x1080+0"), None);
}

#[test]
fn xrandr_monitors_are_spanned() {
    let text = "Monitors: 2\n 0: +*eDP-1 1920/344x1080/194+0+0  eDP-1\n 1: +HDMI-1 2560/597x1440/336+1920+0  HDMI-1\n";
    assert_eq!(xrandr_layout(text), Ok(Some(layout(0, 0, 4480, 1440))));
    assert_eq!(xrandr_layout("Monitors: 0\n"), Ok(None));
    assert_eq!(
        xrandr_layout(" 0: +*A 0/1x0/1+-10+-20 A"),
        Ok(Some(layout(-10, -20, 1, 1)))
    );
    assert_eq!(xrandr_layout("2147483647/1x10/1+2147483000+0"), Err(LayoutOverflow));
}

#[test]
fn wlr_randr_positions_take_the_last_size() {
    let text = "DP-1\n  1920x1080 px\n  +0+0\nDP-2\n  2560x1440 px\n  +1920+-100\n";
    assert_eq!(wlr_randr_layout(text), Ok(Some(layout(0, -100, 4480, 1440))));
    assert_eq!(wlr_randr_layout("+0+0\n"), Ok(None));
    assert_eq!(wlr_randr_layout(""), Ok(None));
    assert_eq!(wlr_randr_layout("10x10 +2147483640+0"), Err(LayoutOverflow));
}

#[test]
fn raw_events_are_classified() {
    assert_eq!(classify_event(2, 0, -3), RawEventKind::Rel { code: 0, value: -3 });
    assert_eq!(classify_event(0, 0, 0), RawEventKind::Report);
    assert_eq!(classify_event(0, 1, 0), RawEventKind::Ignore);
    assert_eq!(
        classify_event(1, 0x110, 1),
        RawEventKind::Button { button: MouseButton::Left, down: true }
    );
    assert_eq!(classify_event(1, 30, 2), RawEventKind::Key { code: 30, state: KeyState::Repeat });
    assert_eq!(classify_event(4, 4, 4), RawEventKind::Ignore);
}

#[test]
fn linux_capture_enters_moves_and_returns() {
    let mut capture = LinuxCapture::new(PointerRouter::new(Edge::Right, (1000, 800), (1200, 900)));
    assert!(capture.on_report(motion(3, 0), None).is_empty());
    assert!(capture.on_report(motion(3, 0), Some((500, 400))).is_empty());
    assert_eq!(
        capture.on_report(motion(5, 0), Some((999, 400))),
        vec![CaptureStep::Grab, CaptureStep::Send(InputEvent::MouseEnter { x: 0, y: 450 })]
    );
    assert!(capture.is_remote());
    assert_eq!(
        capture.on_report(motion(200, 10), None),
        vec![CaptureStep::Send(InputEvent::MouseDelta { dx: 200, dy: 10 })]
    );
    assert_eq!(
        capture.on_report(PendingPointer { dx: 0, dy: 0, wheel: -1, hwheel: 0 }, None),
        vec![CaptureStep::Send(InputEvent::MouseWheel { horizontal: 0, vertical: -120 })]
    );
    assert_eq!(
        capture.on_report(motion(-200, 0), None),
        vec![CaptureStep::Send(InputEvent::MouseDelta { dx: -200, dy: 0 })]
    );
    assert_eq!(
        capture.on_key(KEY_UP, KeyState::Down),
        Some(InputEvent::Key { scancode: 328, state: KeyState::Down })
    );
    assert_eq!(capture.on_key(600, KeyState::Down), None);
    assert_eq!(capture.on_report(motion(-10, 0), None), vec![CaptureStep::Release { x: 991, y: 408 }]);
    assert!(!capture.is_remote());
    assert_eq!(capture.on_key(KEY_UP, KeyState::Down), None);
}

#[test]
fn a_held_remote_button_keeps_the_pointer_remote() {
    let mut capture = LinuxCapture::new(PointerRouter::new(Edge::Right, (1000, 800), (1200, 900)));
    capture.on_report(motion(5, 0), Some((999, 400)));
    assert_eq!(
        capture.on_button(MouseButton::Left, true),
        vec![CaptureStep::Send(InputEvent::MouseButton { button: MouseButton::Left, down: true })]
    );
    assert_eq!(
        capture.on_report(motion(-64, 0), None),
        vec![CaptureStep::Send(InputEvent::MouseDelta { dx: -64, dy: 0 })]
    );
    assert!(capture.is_remote());
    capture.on_button(MouseButton::Left, false);
    assert!(matches!(
        capture.on_report(motion(-10, 0), None)[0],
        CaptureStep::Release { .. }
    ));
}

#[test]
fn a_failed_grab_keeps_the_pointer_local() {
    let mut capture = LinuxCapture::new(PointerRouter::new(Edge::Right, (1000, 800), (1200, 900)));
    capture.on_report(motion(5, 0), Some((999, 400)));
    capture.grab_failed();
    assert!(!capture.is_remote());
    assert!(capture.on_button(MouseButton::Left, true).is_empty());
}

#[test]
fn gui_environment_follows_the_flags() {
    let base = vec![
        EnvSetting { name: "WEBKIT_DISABLE_DMABUF_RENDERER", value: "1", only_if_missing: true },
        EnvSetting { name: "WEBKIT_DISABLE_COMPOSITING_MODE", value: "1", only_if_missing: true },
    ];
    assert_eq!(gui_environment(None, None, None), base);
    let mut expected = base.clone();
    expected.push(EnvSetting { name: "LIBGL_ALWAYS_SOFTWARE", value: "1", only_if_missing: true });
    expected.push(EnvSetting { name: "GDK_BACKEND", value: "wayland", only_if_missing: false });
    assert_eq!(gui_environment(Some("yes"), Some("Wayland"), Some("1")), expected);
    let mut preferred = base.clone();
    preferred.push(EnvSetting { name: "GDK_BACKEND", value: "x11", only_if_missing: true });
    assert_eq!(gui_environment(Some("0"), Some("other"), Some("true")), preferred);
}

#[test]
fn settings_are_written_back_line_by_line() {
    let mut settings = ConfigSettings::defaults();
    settings.role = Role::Server;
    settings.language = Language::Chinese;
    settings.mac_option_mapping = ModifierTarget::Disabled;
    assert_eq!(
        settings.render("1.350", "0.380", "120.0"),
        "role=server\nlanguage=zh\nbind=0.0.0.0:24920\nserver=192.168.1.10:24920\nedge=right\nscroll_scale=1.350\nscroll_response=0.380\nscroll_max_step=120.0\nscroll_frame_ms=8\nmac_command_mapping=control\nmac_control_mapping=control\nmac_option_mapping=disabled\n"
    );
    let text = settings.render("1.000", "0.500", "60.0");
    let parsed = ConfigSettings::parse(&text);
    assert_eq!(parsed.role, Role::Server);
    assert_eq!(parsed.language, Language::Chinese);
    assert_eq!(parsed.mac_option_mapping, ModifierTarget::Disabled);
    assert_eq!(parsed.scroll.len(), 3);
    assert_eq!(parsed.scroll[0].1, "1.000");
}

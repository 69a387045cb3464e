use deskbridge::keymap::{clamp_point, fallback_screen_size, valid_screen_size};
use deskbridge::layout::{parse_layout_token, parse_pointer_start, parse_position_token, parse_size_pair};
use deskbridge::motion::LocalScreenLayout;
use deskbridge::screen_size::{
    parse_size_token, parse_wlr_randr, parse_xdpyinfo_dimensions, parse_xrandr_current,
    parse_xrandr_monitor_geometry, parse_xrandr_monitor_list,
};

#[test]
fn size_tokens_allow_punctuation_and_units() {
    assert_eq!(parse_size_token("1920x1080"), Some((1920, 1080)));
    assert_eq!(parse_size_token("(2560X1440px),"), Some((2560, 1440)));
    assert_eq!(parse_size_token("0x0"), Some((1, 1)));
    assert_eq!(parse_size_token("1920"), None);
    assert_eq!(parse_size_token("axb"), None);
    assert_eq!(valid_screen_size(0, 5), (1, 5));
    assert_eq!(fallback_screen_size(), (1920, 1080));
    assert_eq!(clamp_point(-5, 5000, (1920, 1080)), (0, 1079));
}

#[test]
fn xrandr_current_size_comes_after_current() {
    let text = "Screen 0: minimum 8 x 8, current 3840 x 1080, maximum 32767 x 32767\nHDMI-1 connected\n";
    assert_eq!(parse_xrandr_current(text), Some((3840, 1080)));
    assert_eq!(parse_xrandr_current("current x 1080, 20 x 30"), Some((20, 30)));
    assert_eq!(parse_xrandr_current("no size here"), None);
}

#[test]
fn xrandr_monitors_extend_to_the_furthest_edge() {
    let text = "Monitors: 2\n 0: +*HDMI-1 1920/527x1080/296+0+0  HDMI-1\n 1: +DP-1 1280/300x1024/200+1920+0  DP-1\n";
    assert_eq!(parse_xrandr_monitor_list(text), Some((3200, 1080)));
    assert_eq!(parse_xrandr_monitor_geometry("+*1920/527x1080/296+0+0"), Some((1920, 1080, 0, 0)));
    assert_eq!(parse_xrandr_monitor_geometry("1920x1080+5"), None);
    assert_eq!(parse_xrandr_monitor_list("Monitors: 0\n"), None);
}

#[test]
fn xdpyinfo_and_wlr_randr_sizes() {
    let dpy = "screen #0:\n  dimensions:    2560x1440 pixels (677x381 millimeters)\n";
    assert_eq!(parse_xdpyinfo_dimensions(dpy), Some((2560, 1440)));
    let wlr = "HDMI-A-1\n  Modes:\n    1920x1080 px, 60.000000 Hz (preferred, current)\n    3840x2160 px, 30.000000 Hz\nDP-1\n    2560x1440 px, 144 Hz (current)\n";
    assert_eq!(parse_wlr_randr(wlr), Some((2560, 1440)));
    assert_eq!(parse_wlr_randr("nothing"), None);
}

#[test]
fn layout_tokens_give_size_and_position() {
    assert_eq!(parse_size_pair("[1920x1080]"), Some((1920, 1080)));
    assert_eq!(parse_position_token(" +10+-20 "), Some((10, -20)));
    assert_eq!(parse_position_token("10+20"), None);
    assert_eq!(
        parse_layout_token("2560x1440@+0+0"),
        Some(LocalScreenLayout::new(0, 0, 2560, 1440))
    );
    assert_eq!(
        parse_layout_token("1920x1080+1920+0"),
        Some(LocalScreenLayout::new(1920, 0, 1920, 1080))
    );
    assert_eq!(parse_layout_token("1920x1080"), None);
    assert_eq!(parse_pointer_start(" 100 , 200"), Some((100, 200)));
    assert_eq!(parse_pointer_start("5X6"), Some((5, 6)));
    assert_eq!(parse_pointer_start("5;6"), None);
}

#[test]
fn layouts_hold_points_on_the_screen() {
    let layout = LocalScreenLayout::new(1920, 0, 0, 1080);
    assert_eq!(layout.size(), (1, 1080));
    assert_eq!(layout.normalize((1919, 500)), (0, 500));
    let layout = LocalScreenLayout::new(-100, 0, 800, 600);
    assert_eq!(layout.normalize((i32::MAX, -5)), (799, 0));
}

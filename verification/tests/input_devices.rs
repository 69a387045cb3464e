use deskbridge::input_devices::{
    evdev_bit_is_set, is_capture_device, parse_input_block, parse_input_devices, CaptureKind,
    EV_KEY, EV_REL,
};

const KEYBOARD: &str = "I: Bus=0011 Vendor=0001 Product=0001 Version=ab41\nN: Name=\"AT Translated Set 2 keyboard\"\nP: Phys=isa0060/serio0/input0\nH: Handlers=sysrq kbd event3 leds \nB: EV=120013\n";
const MOUSE: &str = "I: Bus=0003\nN: Name=\"Logitech USB Optical Mouse\"\nH: Handlers=mouse0 event5\nB: EV=17\n";
const POWER: &str = "N: Name=\"Power Button\"\nH: Handlers=kbd event0\nB: EV=3\n";

#[test]
fn device_blocks_are_classified() {
    let k = parse_input_block(KEYBOARD).unwrap();
    assert_eq!(k.event, "event3");
    assert_eq!(k.name, "AT Translated Set 2 keyboard");
    assert_eq!(k.capture_kind, CaptureKind::Keyboard);
    let m = parse_input_block(MOUSE).unwrap();
    assert_eq!(m.event, "event5");
    assert_eq!(m.capture_kind, CaptureKind::Pointer);
    assert_eq!(parse_input_block(POWER).unwrap().capture_kind, CaptureKind::Ignore);
    let touch = parse_input_block("N: Name=\"SynPS/2 Synaptics TouchPad\"\nH: Handlers=mouse1 event7\nB: EV=b\n").unwrap();
    assert_eq!(touch.capture_kind, CaptureKind::Touchpad);
    let pad = parse_input_block("N: Name=\"Gamepad\"\nH: Handlers=js event9\nB: EV=7\n").unwrap();
    assert_eq!(pad.capture_kind, CaptureKind::Ignore);
    let pad0 = parse_input_block("N: Name=\"Gamepad\"\nH: Handlers=js0 event9\nB: EV=7\n").unwrap();
    assert_eq!(pad0.capture_kind, CaptureKind::Pointer);
    assert!(parse_input_block("N: Name=\"No handler\"\nH: Handlers=kbd\n").is_none());
    let unnamed = parse_input_block("H: Handlers=event1\n").unwrap();
    assert_eq!(unnamed.name, "unknown");
    assert_eq!(unnamed.capture_kind, CaptureKind::Ignore);
}

#[test]
fn device_lists_split_at_blank_lines() {
    let text = format!("{KEYBOARD}\n{MOUSE}\n{POWER}");
    let devices = parse_input_devices(&text);
    let names: Vec<&str> = devices.iter().map(|d| d.name.as_str()).collect();
    assert_eq!(names, vec!["AT Translated Set 2 keyboard", "Logitech USB Optical Mouse", "Power Button"]);
    assert!(is_capture_device(&devices[0]));
    assert!(!is_capture_device(&devices[2]));
    let own = parse_input_block("N: Name=\"Deskbridge Virtual Input\"\nH: Handlers=kbd event4\n").unwrap();
    assert!(!is_capture_device(&own));
    assert_eq!(CaptureKind::Ignore.as_str(), "ignored");
    assert!(!CaptureKind::Ignore.is_capture());
}

#[test]
fn event_bits_read_as_hex_words() {
    assert!(evdev_bit_is_set("120013", EV_KEY));
    assert!(!evdev_bit_is_set("120013", EV_REL));
    assert!(evdev_bit_is_set("17", EV_REL));
    assert!(evdev_bit_is_set("1 0", 64));
    assert!(!evdev_bit_is_set("zz 4", 0));
    assert!(evdev_bit_is_set("zz 4", 2));
    assert!(!evdev_bit_is_set("ffffffffffffffff ffffffffffffffff", 128));
    assert!(!evdev_bit_is_set("", 0));
}

use vstd::prelude::*;

use crate::clipboard_backend::{contains_bytes, contains_lowered, lower_all};
use crate::lines::str_views;
use crate::screen_size::{trim_end_of, trim_start_of};
use crate::text::{spec_trim, str_eq, trim, utf8};
use crate::tokens::{
    parse_unsigned, spec_parse_unsigned, split_char, split_on, split_on_str, split_str, split_whitespace,
    words,
};

verus! {

/// What the server captures from an input device.
#[derive(Debug, Clone, Copy, PartialEq, Eq, Structural)]
pub enum CaptureKind {
    Keyboard,
    Pointer,
    Touchpad,
    Ignore,
}

pub open spec fn capture_kind_name(k: CaptureKind) -> Seq<char> {
    match k {
        CaptureKind::Keyboard => "keyboard"@,
        CaptureKind::Pointer => "pointer"@,
        CaptureKind::Touchpad => "touchpad"@,
        CaptureKind::Ignore => "ignored"@,
    }
}

impl CaptureKind {
    /// Whether the device is captured at all.
    pub fn is_capture(self) -> (r: bool)
        ensures
            r == (self != CaptureKind::Ignore),
    {
        !matches!(self, CaptureKind::Ignore)
    }

    pub fn as_str(self) -> (r: &'static str)
        ensures
            r@ == capture_kind_name(self),
    {
        match self {
            CaptureKind::Keyboard => "keyboard",
            CaptureKind::Pointer => "pointer",
            CaptureKind::Touchpad => "touchpad",
            CaptureKind::Ignore => "ignored",
        }
    }
}

/// One device of `/proc/bus/input/devices`.
#[derive(Debug, Clone, PartialEq, Eq)]
pub struct InputDeviceInfo {
    /// The name of its event node, such as `event3`.
    pub event: String,
    pub name: String,
    pub capture_kind: CaptureKind,
}

/// Whether `s` starts with `p`.
pub open spec fn starts_with_chars(s: Seq<char>, p: Seq<char>) -> bool {
    p.len() <= s.len() && s.take(p.len() as int) == p
}

/// `s` after the prefix `p`, if it starts with it.
pub fn strip_prefix_str<'a>(s: &'a str, p: &str) -> (r: Option<&'a str>)
    ensures
        starts_with_chars(s@, p@) ==> (r matches Some(v) && v@ == s@.skip(p@.len() as int)),
        !starts_with_chars(s@, p@) ==> r is None,
{
    let n = s.unicode_len();
    let m = p.unicode_len();
    if m > n {
        return None;
    }
    let mut i: usize = 0;
    while i < m
        invariant
            n == s@.len(),
            m == p@.len(),
            m <= n,
            i <= m,
            forall|j: int| 0 <= j < i ==> s@[j] == p@[j],
        decreases m - i,
    {
        if s.get_char(i) != p.get_char(i) {
            assert(s@.take(m as int)[i as int] != p@[i as int]);
            return None;
        }
        i = i + 1;
    }
    assert(s@.take(m as int) =~= p@);
    let v = s.substring_char(m, n);
    assert(v@ =~= s@.skip(m as int));
    Some(v)
}

/// The name, handler and event-bit fields of a device block, read line by
/// line; a later line overrides an earlier one.
pub open spec fn block_fields(
    acc: (Seq<char>, Seq<char>, Seq<char>),
    lines: Seq<Seq<char>>,
) -> (Seq<char>, Seq<char>, Seq<char>)
    decreases lines.len(),
{
    if lines.len() == 0 {
        acc
    } else {
        let l = lines[0];
        let next = if starts_with_chars(l, "N: Name="@) {
            let v = spec_trim(l.skip("N: Name="@.len() as int));
            (trim_end_of(trim_start_of(v, '"', '"'), '"', '"'), acc.1, acc.2)
        } else if starts_with_chars(l, "H: Handlers="@) {
            (acc.0, spec_trim(l.skip("H: Handlers="@.len() as int)), acc.2)
        } else if starts_with_chars(l, "B: EV="@) {
            (acc.0, acc.1, spec_trim(l.skip("B: EV="@.len() as int)))
        } else {
            acc
        };
        block_fields(next, lines.drop_first())
    }
}

/// The number a list of hexadecimal words spells, 64 bits a word, the last
/// word lowest; words that are not numbers are skipped and only the low
/// 128 bits are kept.
pub open spec fn evdev_value(acc: u128, chunks: Seq<Seq<char>>) -> u128
    decreases chunks.len(),
{
    if chunks.len() == 0 {
        acc
    } else {
        let next = match spec_parse_unsigned(chunks[0], 16, 0xffff_ffff_ffff_ffff_ffff_ffff_ffff_ffff) {
            Some(v) => (acc << 64u128) | (v as u128),
            None => acc,
        };
        evdev_value(next, chunks.drop_first())
    }
}

/// Whether bit `bit` is set in a bitmap written as hexadecimal words.
pub open spec fn spec_evdev_bit_is_set(hex: Seq<char>, bit: usize) -> bool {
    bit < 128 && ((evdev_value(0, words(hex)) >> bit) & 1u128) == 1u128
}

/// Whether bit `bit` is set in an event-bit field such as `B: EV=120013`.
pub fn evdev_bit_is_set(hex: &str, bit: usize) -> (r: bool)
    ensures
        r == spec_evdev_bit_is_set(hex@, bit),
{
    let chunks = split_whitespace(hex);
    let mut value: u128 = 0;
    let mut k: usize = 0;
    assert(str_views(chunks@).skip(0) =~= str_views(chunks@));
    while k < chunks.len()
        invariant
            k <= chunks@.len(),
            str_views(chunks@) == words(hex@),
            evdev_value(0, words(hex@)) == evdev_value(value, str_views(chunks@).skip(k as int)),
        decreases chunks@.len() - k,
    {
        let ghost rest = str_views(chunks@).skip(k as int);
        assert(rest[0] == chunks@[k as int]@);
        assert(rest.drop_first() =~= str_views(chunks@).skip(k + 1));
        if let Some(parsed) = parse_unsigned(chunks[k], 16, 0xffff_ffff_ffff_ffff_ffff_ffff_ffff_ffff) {
            value = (value << 64u128) | parsed;
        }
        k = k + 1;
    }
    if bit < 128 {
        ((value >> (bit as u128)) & 1) == 1
    } else {
        false
    }
}

pub const EV_KEY: usize = 1;
pub const EV_REL: usize = 2;

/// Whether some handler starts with `p`.
pub open spec fn any_starts_with(toks: Seq<Seq<char>>, p: Seq<char>) -> bool {
    exists|i: int| 0 <= i < toks.len() && starts_with_chars(#[trigger] toks[i], p)
}

/// Whether some handler is `p`.
pub open spec fn any_is(toks: Seq<Seq<char>>, p: Seq<char>) -> bool {
    exists|i: int| 0 <= i < toks.len() && #[trigger] toks[i] == p
}

/// Whether the name, ASCII letters lower-cased, holds `w`.
pub open spec fn name_has(name: Seq<char>, w: Seq<char>) -> bool {
    contains_bytes(lower_all(utf8(name)), utf8(w))
}

/// The first handler that starts with "event".
pub open spec fn first_event(toks: Seq<Seq<char>>) -> Option<Seq<char>>
    decreases toks.len(),
{
    if toks.len() == 0 {
        None
    } else if starts_with_chars(toks[0], "event"@) {
        Some(toks[0])
    } else {
        first_event(toks.drop_first())
    }
}

/// What a device is captured as: power buttons, lid switches, video and
/// HDMI devices are ignored; touchpads are touchpads; devices with a mouse
/// handler, a mouse-like name, or relative motion (and no joystick
/// handler) are pointers; devices with a keyboard handler or name, or keys
/// without relative motion, are keyboards; the rest is ignored.
pub open spec fn spec_capture_kind(name: Seq<char>, handlers: Seq<Seq<char>>, has_key: bool, has_rel: bool) -> CaptureKind {
    if name_has(name, "power"@) || name_has(name, "sleep"@) || name_has(name, "lid"@) || name_has(
        name,
        "video bus"@,
    ) || name_has(name, "hdmi"@) {
        CaptureKind::Ignore
    } else if name_has(name, "touchpad"@) || name_has(name, "trackpad"@) {
        CaptureKind::Touchpad
    } else if any_starts_with(handlers, "mouse"@) || name_has(name, "mouse"@) || name_has(
        name,
        "trackpoint"@,
    ) || (has_rel && !any_is(handlers, "js"@)) {
        CaptureKind::Pointer
    } else if any_is(handlers, "kbd"@) || name_has(name, "keyboard"@) || (has_key && !has_rel) {
        CaptureKind::Keyboard
    } else {
        CaptureKind::Ignore
    }
}

/// The device a block of `/proc/bus/input/devices` describes; `None` when
/// it has no event handler.
pub open spec fn spec_parse_input_block(block: Seq<char>) -> Option<(Seq<char>, Seq<char>, CaptureKind)> {
    let f = block_fields(("unknown"@, Seq::empty(), Seq::empty()), split_on(block, '\n'));
    let handlers = words(f.1);
    match first_event(handlers) {
        Some(event) => Some((event, f.0, spec_capture_kind(
            f.0,
            handlers,
            spec_evdev_bit_is_set(f.2, EV_KEY),
            spec_evdev_bit_is_set(f.2, EV_REL),
        ))),
        None => None,
    }
}

fn name_has_word(name: &str, w: &str) -> (r: bool)
    ensures
        r == name_has(name@, w@),
{
    contains_lowered(name.as_bytes(), w.as_bytes())
}

fn handlers_scan<'a>(toks: &Vec<&'a str>) -> (r: (Option<&'a str>, bool, bool, bool))
    ensures
        match first_event(str_views(toks@)) {
            Some(e) => r.0 matches Some(v) && v@ == e,
            None => r.0 is None,
        },
        r.1 == any_starts_with(str_views(toks@), "mouse"@),
        r.2 == any_is(str_views(toks@), "js"@),
        r.3 == any_is(str_views(toks@), "kbd"@),
{
    let ghost tv = str_views(toks@);
    let mut event: Option<&'a str> = None;
    let mut mouse = false;
    let mut js = false;
    let mut kbd = false;
    let mut k: usize = 0;
    assert(tv.skip(0) =~= tv);
    while k < toks.len()
        invariant
            k <= toks@.len(),
            tv == str_views(toks@),
            match event {
                Some(v) => first_event(tv) == Some(v@),
                None => first_event(tv) == first_event(tv.skip(k as int)),
            },
            mouse == exists|i: int| 0 <= i < k && starts_with_chars(#[trigger] tv[i], "mouse"@),
            js == exists|i: int| 0 <= i < k && #[trigger] tv[i] == "js"@,
            kbd == exists|i: int| 0 <= i < k && #[trigger] tv[i] == "kbd"@,
        decreases toks@.len() - k,
    {
        let t = toks[k];
        let ghost rest = tv.skip(k as int);
        assert(tv[k as int] == t@);
        assert(rest[0] == t@);
        assert(rest.drop_first() =~= tv.skip(k + 1));
        let is_event = strip_prefix_str(t, "event").is_some();
        if event.is_none() && is_event {
            event = Some(t);
        }
        if strip_prefix_str(t, "mouse").is_some() {
            mouse = true;
        }
        if str_eq(t, "js") {
            js = true;
        }
        if str_eq(t, "kbd") {
            kbd = true;
        }
        k = k + 1;
    }
    proof {
        assert(tv.skip(k as int).len() == 0);
    }
    (event, mouse, js, kbd)
}

/// Reads one block of `/proc/bus/input/devices`.
pub fn parse_input_block(block: &str) -> (r: Option<InputDeviceInfo>)
    ensures
        match spec_parse_input_block(block@) {
            Some((event, name, kind)) => r matches Some(info) && info.event@ == event
                && info.name@ == name && info.capture_kind == kind,
            None => r is None,
        },
{
    let lines = split_char(block, '\n');
    let mut name: &str = "unknown";
    let mut handlers: &str = "";
    let mut ev_bits: &str = "";
    let mut k: usize = 0;
    proof {
        reveal_strlit("");
    }
    assert(str_views(lines@).skip(0) =~= str_views(lines@));
    assert(""@ =~= Seq::<char>::empty());
    while k < lines.len()
        invariant
            k <= lines@.len(),
            str_views(lines@) == split_on(block@, '\n'),
            block_fields(("unknown"@, Seq::empty(), Seq::empty()), split_on(block@, '\n'))
                == block_fields((name@, handlers@, ev_bits@), str_views(lines@).skip(k as int)),
        decreases lines@.len() - k,
    {
        let line = lines[k];
        let ghost rest = str_views(lines@).skip(k as int);
        assert(rest[0] == line@);
        assert(rest.drop_first() =~= str_views(lines@).skip(k + 1));
        if let Some(v) = strip_prefix_str(line, "N: Name=") {
            name = crate::screen_size::trim_both_chars(trim(v), '"', '"');
        } else if let Some(v) = strip_prefix_str(line, "H: Handlers=") {
            handlers = trim(v);
        } else if let Some(v) = strip_prefix_str(line, "B: EV=") {
            ev_bits = trim(v);
        }
        k = k + 1;
    }
    let toks = split_whitespace(handlers);
    let (event, mouse, js, kbd) = handlers_scan(&toks);
    let event = match event {
        Some(e) => e,
        None => return None,
    };
    let has_key = evdev_bit_is_set(ev_bits, EV_KEY);
    let has_rel = evdev_bit_is_set(ev_bits, EV_REL);
    let kind = if name_has_word(name, "power") || name_has_word(name, "sleep") || name_has_word(
        name,
        "lid",
    ) || name_has_word(name, "video bus") || name_has_word(name, "hdmi") {
        CaptureKind::Ignore
    } else if name_has_word(name, "touchpad") || name_has_word(name, "trackpad") {
        CaptureKind::Touchpad
    } else if mouse || name_has_word(name, "mouse") || name_has_word(name, "trackpoint") || (
    has_rel && !js) {
        CaptureKind::Pointer
    } else if kbd || name_has_word(name, "keyboard") || (has_key && !has_rel) {
        CaptureKind::Keyboard
    } else {
        CaptureKind::Ignore
    };
    Some(
        InputDeviceInfo {
            event: String::from_str(event),
            name: String::from_str(name),
            capture_kind: kind,
        },
    )
}

/// The devices of `/proc/bus/input/devices`: its blocks, split at blank
/// lines, each read as a device.
pub open spec fn block_devices(blocks: Seq<Seq<char>>) -> Seq<(Seq<char>, Seq<char>, CaptureKind)>
    decreases blocks.len(),
{
    if blocks.len() == 0 {
        seq![]
    } else {
        let prev = block_devices(blocks.drop_last());
        match spec_parse_input_block(blocks.last()) {
            Some(d) => prev.push(d),
            None => prev,
        }
    }
}


/// The view of a device record.
pub open spec fn device_view(d: InputDeviceInfo) -> (Seq<char>, Seq<char>, CaptureKind) {
    (d.event@, d.name@, d.capture_kind)
}

pub open spec fn device_views(v: Seq<InputDeviceInfo>) -> Seq<(Seq<char>, Seq<char>, CaptureKind)> {
    v.map_values(|d: InputDeviceInfo| device_view(d))
}

/// The devices listed in the text of `/proc/bus/input/devices`.
pub open spec fn spec_parse_input_devices(text: Seq<char>) -> Seq<(Seq<char>, Seq<char>, CaptureKind)> {
    block_devices(split_str(text, "\n\n"@))
}

/// The devices listed in the text of `/proc/bus/input/devices`, in order.
pub fn parse_input_devices(text: &str) -> (r: Vec<InputDeviceInfo>)
    ensures
        device_views(r@) == spec_parse_input_devices(text@),
{
    proof {
        reveal_strlit("\n\n");
    }
    let blocks = split_on_str(text, "\n\n");
    let ghost bv = str_views(blocks@);
    let mut out: Vec<InputDeviceInfo> = Vec::new();
    let mut k: usize = 0;
    assert(bv.take(0) =~= Seq::<Seq<char>>::empty());
    assert(device_views(out@) =~= Seq::<(Seq<char>, Seq<char>, CaptureKind)>::empty());
    while k < blocks.len()
        invariant
            k <= blocks@.len(),
            bv == str_views(blocks@),
            device_views(out@) == block_devices(bv.take(k as int)),
        decreases blocks@.len() - k,
    {
        let ghost before = out@;
        proof {
            assert(bv.take(k + 1).drop_last() =~= bv.take(k as int));
            assert(bv.take(k + 1).last() == blocks@[k as int]@);
        }
        match parse_input_block(blocks[k]) {
            Some(info) => {
                out.push(info);
                assert(device_views(out@) =~= device_views(before).push(device_view(info)));
            },
            None => {},
        }
        k = k + 1;
    }
    assert(bv.take(k as int) =~= bv);
    out
}

/// Whether the server opens a device for capture: it is one of the kinds
/// captured and not the server's own virtual device.
pub open spec fn is_capture_candidate(d: (Seq<char>, Seq<char>, CaptureKind)) -> bool {
    !contains_bytes(utf8(d.1), utf8("Deskbridge Virtual Input"@)) && d.2 != CaptureKind::Ignore
}

/// Whether the server opens this device for capture.
pub fn is_capture_device(info: &InputDeviceInfo) -> (r: bool)
    ensures
        r == is_capture_candidate(device_view(*info)),
{
    !crate::tokens::bytes_contain(info.name.as_str().as_bytes(), "Deskbridge Virtual Input".as_bytes())
        && info.capture_kind.is_capture()
}

} // verus!

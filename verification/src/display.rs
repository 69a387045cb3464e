use vstd::prelude::*;

use crate::text::{spec_trim, trim, utf8};
use crate::uri_list::{bytes_eq_ignore_ascii_case, eq_ignore_ascii_case};

verus! {

/// The kind of graphical session on Linux.
#[derive(Debug, Clone, Copy, PartialEq, Eq, Structural)]
pub enum DisplayServer {
    Wayland,
    X11,
    Unknown,
}

pub open spec fn display_server_name(d: DisplayServer) -> Seq<char> {
    match d {
        DisplayServer::Wayland => "wayland"@,
        DisplayServer::X11 => "x11"@,
        DisplayServer::Unknown => "unknown"@,
    }
}

/// Whether a text equals a word, ASCII case ignored.
pub open spec fn is_word(v: Seq<char>, word: Seq<char>) -> bool {
    eq_ignore_ascii_case(utf8(v), utf8(word))
}

/// The session kind: a session override names it ("wayland" or "x11", in
/// any case); else a Wayland display, then an X display, says which.
pub open spec fn spec_detect_display(
    session: Option<Seq<char>>,
    wayland_display: bool,
    x_display: bool,
) -> DisplayServer {
    if session matches Some(s) && is_word(s, "wayland"@) {
        DisplayServer::Wayland
    } else if session matches Some(s) && is_word(s, "x11"@) {
        DisplayServer::X11
    } else if wayland_display {
        DisplayServer::Wayland
    } else if x_display {
        DisplayServer::X11
    } else {
        DisplayServer::Unknown
    }
}

/// Whether `value` is `word`, ASCII case ignored.
pub fn matches_word(value: &str, word: &str) -> (r: bool)
    ensures
        r == is_word(value@, word@),
{
    bytes_eq_ignore_ascii_case(value.as_bytes(), word.as_bytes())
}

impl DisplayServer {
    /// The session kind, from the value of the session override (if set)
    /// and whether a Wayland display and an X display are named.
    pub fn detect(session: Option<&str>, wayland_display: bool, x_display: bool) -> (r:
        DisplayServer)
        ensures
            r == spec_detect_display(
                match session {
                    Some(s) => Some(s@),
                    None => None,
                },
                wayland_display,
                x_display,
            ),
    {
        if let Some(s) = session {
            if matches_word(s, "wayland") {
                return DisplayServer::Wayland;
            }
            if matches_word(s, "x11") {
                return DisplayServer::X11;
            }
        }
        if wayland_display {
            DisplayServer::Wayland
        } else if x_display {
            DisplayServer::X11
        } else {
            DisplayServer::Unknown
        }
    }

    pub fn as_str(self) -> (r: &'static str)
        ensures
            r@ == display_server_name(self),
    {
        match self {
            DisplayServer::Wayland => "wayland",
            DisplayServer::X11 => "x11",
            DisplayServer::Unknown => "unknown",
        }
    }
}

/// Whether a flag's value turns it on: once trimmed, it is "1", "true",
/// "yes" or "on", ASCII case ignored.
pub open spec fn spec_flag_enabled(value: Option<Seq<char>>) -> bool {
    value matches Some(v) && {
        let t = spec_trim(v);
        is_word(t, "1"@) || is_word(t, "true"@) || is_word(t, "yes"@) || is_word(t, "on"@)
    }
}

/// Whether an environment flag with this value is on.
pub fn flag_enabled(value: Option<&str>) -> (r: bool)
    ensures
        r == spec_flag_enabled(
            match value {
                Some(v) => Some(v@),
                None => None,
            },
        ),
{
    match value {
        Some(v) => {
            let t = trim(v);
            matches_word(t, "1") || matches_word(t, "true") || matches_word(t, "yes")
                || matches_word(t, "on")
        },
        None => false,
    }
}

/// The first command that is available, given whether each one is.
pub fn first_available<'a>(commands: &[&'a str], available: &[bool]) -> (r: Option<&'a str>)
    requires
        commands@.len() == available@.len(),
    ensures
        match r {
            Some(c) => exists|i: int|
                0 <= i < commands@.len() && available@[i] && commands@[i] == c && forall|j: int|
                    0 <= j < i ==> !available@[j],
            None => forall|j: int| 0 <= j < available@.len() ==> !available@[j],
        },
{
    let mut i: usize = 0;
    while i < commands.len()
        invariant
            commands@.len() == available@.len(),
            i <= commands@.len(),
            forall|j: int| 0 <= j < i ==> !available@[j],
        decreases commands@.len() - i,
    {
        if available[i] {
            return Some(commands[i]);
        }
        i = i + 1;
    }
    None
}

/// An environment variable set before the window toolkit starts: its
/// name, its value, and whether a value already there is kept.
#[derive(Debug, Clone, Copy, PartialEq, Eq)]
pub struct EnvSetting {
    pub name: &'static str,
    pub value: &'static str,
    pub only_if_missing: bool,
}

pub open spec fn setting_view(e: EnvSetting) -> (Seq<char>, Seq<char>, bool) {
    (e.name@, e.value@, e.only_if_missing)
}

/// The settings for the window toolkit on Linux: WebKit's DMA-BUF renderer
/// and compositing mode off (unless already set); software GL when asked
/// for; the GDK backend as asked for ("x11" or "wayland", any case), or
/// X11 when preferred (unless already set).
pub open spec fn spec_gui_environment(
    software_rendering: Option<Seq<char>>,
    gui_backend: Option<Seq<char>>,
    prefer_x11: Option<Seq<char>>,
) -> Seq<(Seq<char>, Seq<char>, bool)> {
    seq![
        ("WEBKIT_DISABLE_DMABUF_RENDERER"@, "1"@, true),
        ("WEBKIT_DISABLE_COMPOSITING_MODE"@, "1"@, true),
    ] + (if spec_flag_enabled(software_rendering) {
        seq![("LIBGL_ALWAYS_SOFTWARE"@, "1"@, true)]
    } else {
        seq![]
    }) + (if gui_backend is Some && is_word(gui_backend.unwrap(), "x11"@) {
        seq![("GDK_BACKEND"@, "x11"@, false)]
    } else if gui_backend is Some && is_word(gui_backend.unwrap(), "wayland"@) {
        seq![("GDK_BACKEND"@, "wayland"@, false)]
    } else if spec_flag_enabled(prefer_x11) {
        seq![("GDK_BACKEND"@, "x11"@, true)]
    } else {
        seq![]
    })
}

/// The environment settings for the window toolkit, from the values of
/// the software-rendering flag, the backend override and the X11 flag.
pub fn gui_environment(
    software_rendering: Option<&str>,
    gui_backend: Option<&str>,
    prefer_x11: Option<&str>,
) -> (r: Vec<EnvSetting>)
    ensures
        r@.map_values(|e: EnvSetting| setting_view(e)) == spec_gui_environment(
            match software_rendering {
                Some(v) => Some(v@),
                None => None,
            },
            match gui_backend {
                Some(v) => Some(v@),
                None => None,
            },
            match prefer_x11 {
                Some(v) => Some(v@),
                None => None,
            },
        ),
{
    let mut out: Vec<EnvSetting> = Vec::new();
    out.push(EnvSetting { name: "WEBKIT_DISABLE_DMABUF_RENDERER", value: "1", only_if_missing: true });
    out.push(EnvSetting { name: "WEBKIT_DISABLE_COMPOSITING_MODE", value: "1", only_if_missing: true });
    if flag_enabled(software_rendering) {
        out.push(EnvSetting { name: "LIBGL_ALWAYS_SOFTWARE", value: "1", only_if_missing: true });
    }
    let backend_x11 = match gui_backend {
        Some(v) => matches_word(v, "x11"),
        None => false,
    };
    let backend_wayland = match gui_backend {
        Some(v) => matches_word(v, "wayland"),
        None => false,
    };
    if backend_x11 {
        out.push(EnvSetting { name: "GDK_BACKEND", value: "x11", only_if_missing: false });
    } else if backend_wayland {
        out.push(EnvSetting { name: "GDK_BACKEND", value: "wayland", only_if_missing: false });
    } else if flag_enabled(prefer_x11) {
        out.push(EnvSetting { name: "GDK_BACKEND", value: "x11", only_if_missing: true });
    }
    assert(out@.map_values(|e: EnvSetting| setting_view(e)) =~= spec_gui_environment(
        match software_rendering {
            Some(v) => Some(v@),
            None => None,
        },
        match gui_backend {
            Some(v) => Some(v@),
            None => None,
        },
        match prefer_x11 {
            Some(v) => Some(v@),
            None => None,
        },
    ));
    out
}

} // verus!

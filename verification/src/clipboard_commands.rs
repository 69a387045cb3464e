use vstd::prelude::*;

use crate::clipboard_backend::{
    file_target_name, image_loads, image_to_png, png_reencoding, png_signature, ClipboardBackend,
    FileTarget,
};
use crate::file_uri::has_prefix;
use crate::lines::string_views;
use crate::protocol::{ClipboardModel, ClipboardPayload};
use crate::text::{decode_lossy, str_eq, string_from_utf8_lossy};
use crate::uri_list::{
    all_uri_decodable, gnome_file_lines, parse_gnome_copied_files, parse_uri_list, spec_parse_gnome_copied_files,
    spec_parse_uri_list, uncommented,
};
use crate::lines::spec_trimmed_lines;

verus! {

/// A command line: the program to run and its arguments.
#[derive(Debug, Clone, PartialEq, Eq)]
pub struct CommandLine {
    pub program: String,
    pub args: Vec<String>,
}

impl View for CommandLine {
    type V = (Seq<char>, Seq<Seq<char>>);

    open spec fn view(&self) -> (Seq<char>, Seq<Seq<char>>) {
        (self.program@, string_views(self.args@))
    }
}

/// The views of a list of command lines.
pub open spec fn command_views(v: Seq<CommandLine>) -> Seq<(Seq<char>, Seq<Seq<char>>)> {
    v.map_values(|c: CommandLine| c@)
}

fn command(program: &str, args: Vec<String>) -> (r: CommandLine)
    ensures
        r@ == (program@, string_views(args@)),
{
    CommandLine { program: String::from_str(program), args }
}

fn strings1(a: &str) -> (r: Vec<String>)
    ensures
        string_views(r@) == seq![a@],
{
    let mut v: Vec<String> = Vec::new();
    v.push(String::from_str(a));
    assert(string_views(v@) =~= seq![a@]);
    v
}

fn strings2(a: &str, b: &str) -> (r: Vec<String>)
    ensures
        string_views(r@) == seq![a@, b@],
{
    let mut v: Vec<String> = Vec::new();
    v.push(String::from_str(a));
    v.push(String::from_str(b));
    assert(string_views(v@) =~= seq![a@, b@]);
    v
}

fn strings3(a: &str, b: &str, c: &str) -> (r: Vec<String>)
    ensures
        string_views(r@) == seq![a@, b@, c@],
{
    let mut v: Vec<String> = Vec::new();
    v.push(String::from_str(a));
    v.push(String::from_str(b));
    v.push(String::from_str(c));
    assert(string_views(v@) =~= seq![a@, b@, c@]);
    v
}

fn strings5(a: &str, b: &str, c: &str, d: &str, e: &str) -> (r: Vec<String>)
    ensures
        string_views(r@) == seq![a@, b@, c@, d@, e@],
{
    let mut v: Vec<String> = Vec::new();
    v.push(String::from_str(a));
    v.push(String::from_str(b));
    v.push(String::from_str(c));
    v.push(String::from_str(d));
    v.push(String::from_str(e));
    assert(string_views(v@) =~= seq![a@, b@, c@, d@, e@]);
    v
}

/// The MIME type text is written under.
pub open spec fn utf8_text_type() -> Seq<char> {
    "text/plain;charset=utf-8"@
}

/// The command that reads the clipboard under one target; xsel reads no
/// targets.
pub open spec fn spec_read_target_command(b: ClipboardBackend, target: Seq<char>) -> Option<
    (Seq<char>, Seq<Seq<char>>),
> {
    match b {
        ClipboardBackend::Wayland => Some(("wl-paste"@, seq!["--type"@, target])),
        ClipboardBackend::X11Xclip => Some(
            ("xclip"@, seq!["-selection"@, "clipboard"@, "-out"@, "-target"@, target]),
        ),
        ClipboardBackend::X11Xsel => None,
    }
}

/// The command that reads the clipboard under one target.
pub fn read_target_command(backend: ClipboardBackend, target: &str) -> (r: Option<CommandLine>)
    ensures
        match r {
            Some(c) => spec_read_target_command(backend, target@) == Some(c@),
            None => spec_read_target_command(backend, target@) is None,
        },
{
    match backend {
        ClipboardBackend::Wayland => Some(command("wl-paste", strings2("--type", target))),
        ClipboardBackend::X11Xclip => Some(
            command("xclip", strings5("-selection", "clipboard", "-out", "-target", target)),
        ),
        ClipboardBackend::X11Xsel => None,
    }
}

/// The command that reads the clipboard as it is, when no target gave
/// anything.
pub open spec fn spec_read_plain_command(b: ClipboardBackend) -> (Seq<char>, Seq<Seq<char>>) {
    match b {
        ClipboardBackend::Wayland => ("wl-paste"@, seq!["--no-newline"@]),
        ClipboardBackend::X11Xclip => ("xclip"@, seq!["-selection"@, "clipboard"@, "-out"@]),
        ClipboardBackend::X11Xsel => ("xsel"@, seq!["--clipboard"@, "--output"@]),
    }
}

/// The command that reads the clipboard as it is.
pub fn read_plain_command(backend: ClipboardBackend) -> (r: CommandLine)
    ensures
        r@ == spec_read_plain_command(backend),
{
    match backend {
        ClipboardBackend::Wayland => command("wl-paste", strings1("--no-newline")),
        ClipboardBackend::X11Xclip => command("xclip", strings3("-selection", "clipboard", "-out")),
        ClipboardBackend::X11Xsel => command("xsel", strings2("--clipboard", "--output")),
    }
}

/// The targets text is read under, tried in order before the plain read;
/// xsel reads only plain.
pub open spec fn spec_text_read_targets(b: ClipboardBackend) -> Seq<Seq<char>> {
    if b == ClipboardBackend::X11Xsel {
        seq![]
    } else {
        seq![utf8_text_type(), "text/plain"@, "UTF8_STRING"@, "STRING"@]
    }
}

/// The targets an image is read under, in order; xsel reads no images.
pub open spec fn spec_image_read_targets(b: ClipboardBackend) -> Seq<Seq<char>> {
    if b == ClipboardBackend::X11Xsel {
        seq![]
    } else {
        seq!["image/png"@, "image/jpeg"@, "image/bmp"@, "image/tiff"@]
    }
}

/// The targets a file list is read under, in order; xsel reads no files.
pub open spec fn spec_file_read_targets(b: ClipboardBackend) -> Seq<Seq<char>> {
    if b == ClipboardBackend::X11Xsel {
        seq![]
    } else {
        seq![gnome_files_type(), "text/uri-list"@, utf8_text_type(), "text/plain"@, "UTF8_STRING"@]
    }
}

/// The target GNOME offers copied files under.
pub open spec fn gnome_files_type() -> Seq<char> {
    "x-special/gnome-copied-files"@
}

/// The targets text is read under.
pub fn text_read_targets(backend: ClipboardBackend) -> (r: Vec<&'static str>)
    ensures
        r@.map_values(|s: &'static str| s@) == spec_text_read_targets(backend),
{
    let mut v: Vec<&'static str> = Vec::new();
    if backend != ClipboardBackend::X11Xsel {
        v.push("text/plain;charset=utf-8");
        v.push("text/plain");
        v.push("UTF8_STRING");
        v.push("STRING");
    }
    assert(v@.map_values(|s: &'static str| s@) =~= spec_text_read_targets(backend));
    v
}

/// The targets an image is read under.
pub fn image_read_targets(backend: ClipboardBackend) -> (r: Vec<&'static str>)
    ensures
        r@.map_values(|s: &'static str| s@) == spec_image_read_targets(backend),
{
    let mut v: Vec<&'static str> = Vec::new();
    if backend != ClipboardBackend::X11Xsel {
        v.push("image/png");
        v.push("image/jpeg");
        v.push("image/bmp");
        v.push("image/tiff");
    }
    assert(v@.map_values(|s: &'static str| s@) =~= spec_image_read_targets(backend));
    v
}

/// The targets a file list is read under.
pub fn file_read_targets(backend: ClipboardBackend) -> (r: Vec<&'static str>)
    ensures
        r@.map_values(|s: &'static str| s@) == spec_file_read_targets(backend),
{
    let mut v: Vec<&'static str> = Vec::new();
    if backend != ClipboardBackend::X11Xsel {
        v.push("x-special/gnome-copied-files");
        v.push("text/uri-list");
        v.push("text/plain;charset=utf-8");
        v.push("text/plain");
        v.push("UTF8_STRING");
    }
    assert(v@.map_values(|s: &'static str| s@) =~= spec_file_read_targets(backend));
    v
}

/// The commands text is written with, tried in order until one succeeds;
/// the text goes to each on its standard input.
pub open spec fn spec_write_text_commands(b: ClipboardBackend) -> Seq<(Seq<char>, Seq<Seq<char>>)> {
    match b {
        ClipboardBackend::Wayland => seq![("wl-copy"@, seq!["--type"@, utf8_text_type()])],
        ClipboardBackend::X11Xclip => seq![
            ("xclip"@, seq!["-selection"@, "clipboard"@, "-in"@, "-target"@, utf8_text_type()]),
            ("xclip"@, seq!["-selection"@, "clipboard"@, "-in"@]),
        ],
        ClipboardBackend::X11Xsel => seq![("xsel"@, seq!["--clipboard"@, "--input"@])],
    }
}

/// The commands text is written with, in the order they are tried.
pub fn write_text_commands(backend: ClipboardBackend) -> (r: Vec<CommandLine>)
    ensures
        command_views(r@) == spec_write_text_commands(backend),
{
    let mut v: Vec<CommandLine> = Vec::new();
    match backend {
        ClipboardBackend::Wayland => {
            v.push(command("wl-copy", strings2("--type", "text/plain;charset=utf-8")));
        },
        ClipboardBackend::X11Xclip => {
            v.push(
                command(
                    "xclip",
                    strings5("-selection", "clipboard", "-in", "-target", "text/plain;charset=utf-8"),
                ),
            );
            v.push(command("xclip", strings3("-selection", "clipboard", "-in")));
        },
        ClipboardBackend::X11Xsel => {
            v.push(command("xsel", strings2("--clipboard", "--input")));
        },
    }
    assert(command_views(v@) =~= spec_write_text_commands(backend));
    v
}

/// What xsel cannot put on the clipboard.
#[derive(Debug, Clone, Copy, PartialEq, Eq, Structural)]
pub enum XselUnsupported {
    Images,
    Files,
}

pub open spec fn xsel_unsupported_message(e: XselUnsupported) -> Seq<char> {
    match e {
        XselUnsupported::Images => "image clipboard on X11 requires xclip; xsel only supports text"@,
        XselUnsupported::Files => "file clipboard on X11 requires xclip; xsel only supports text"@,
    }
}

impl XselUnsupported {
    pub fn message(self) -> (r: &'static str)
        ensures
            r@ == xsel_unsupported_message(self),
    {
        match self {
            XselUnsupported::Images => "image clipboard on X11 requires xclip; xsel only supports text",
            XselUnsupported::Files => "file clipboard on X11 requires xclip; xsel only supports text",
        }
    }
}

/// The command that writes data under one target.
pub open spec fn spec_write_target_command(b: ClipboardBackend, target: Seq<char>) -> Option<
    (Seq<char>, Seq<Seq<char>>),
> {
    match b {
        ClipboardBackend::Wayland => Some(("wl-copy"@, seq!["--type"@, target])),
        ClipboardBackend::X11Xclip => Some(
            ("xclip"@, seq!["-selection"@, "clipboard"@, "-in"@, "-target"@, target]),
        ),
        ClipboardBackend::X11Xsel => None,
    }
}

fn write_target_command(backend: ClipboardBackend, target: &str) -> (r: Option<CommandLine>)
    ensures
        match r {
            Some(c) => spec_write_target_command(backend, target@) == Some(c@),
            None => spec_write_target_command(backend, target@) is None,
        },
{
    match backend {
        ClipboardBackend::Wayland => Some(command("wl-copy", strings2("--type", target))),
        ClipboardBackend::X11Xclip => Some(
            command("xclip", strings5("-selection", "clipboard", "-in", "-target", target)),
        ),
        ClipboardBackend::X11Xsel => None,
    }
}

/// The command a PNG image is written with; xsel writes no images.
pub fn write_image_command(backend: ClipboardBackend) -> (r: Result<CommandLine, XselUnsupported>)
    ensures
        match spec_write_target_command(backend, "image/png"@) {
            Some(c) => r matches Ok(d) && d@ == c,
            None => r == Err::<CommandLine, XselUnsupported>(XselUnsupported::Images),
        },
{
    match write_target_command(backend, "image/png") {
        Some(c) => Ok(c),
        None => Err(XselUnsupported::Images),
    }
}

/// The commands a file list is written with, in the order of the
/// preferred targets, each with the target whose text it is given; the
/// first that succeeds ends the write. xsel writes no files.
pub fn write_files_commands(backend: ClipboardBackend, targets: (FileTarget, FileTarget)) -> (r:
    Result<Vec<(CommandLine, FileTarget)>, XselUnsupported>)
    ensures
        backend == ClipboardBackend::X11Xsel ==> r == Err::<Vec<(CommandLine, FileTarget)>, XselUnsupported>(
            XselUnsupported::Files,
        ),
        backend != ClipboardBackend::X11Xsel ==> (r matches Ok(v) && v@.len() == 2 && v@[0].1
            == targets.0 && v@[1].1 == targets.1 && spec_write_target_command(
            backend,
            file_target_name(targets.0),
        ) == Some(v@[0].0@) && spec_write_target_command(backend, file_target_name(targets.1))
            == Some(v@[1].0@)),
{
    let first = match write_target_command(backend, targets.0.as_str()) {
        Some(c) => c,
        None => return Err(XselUnsupported::Files),
    };
    let second = match write_target_command(backend, targets.1.as_str()) {
        Some(c) => c,
        None => return Err(XselUnsupported::Files),
    };
    let mut v: Vec<(CommandLine, FileTarget)> = Vec::new();
    v.push((first, targets.0));
    v.push((second, targets.1));
    Ok(v)
}

/// Text read from the clipboard: nothing when it is empty, the bytes read
/// as UTF-8 (malformed sequences replaced) otherwise.
pub fn text_from_clipboard(bytes: &[u8]) -> (r: Option<String>)
    ensures
        bytes@.len() == 0 ==> r is None,
        bytes@.len() > 0 ==> (r matches Some(t) && t@ == decode_lossy(bytes@)),
{
    if bytes.len() == 0 {
        None
    } else {
        Some(string_from_utf8_lossy(bytes))
    }
}

/// An image read under a target, as PNG: nothing when there are no bytes;
/// the bytes as they are under `image/png` or when they are PNG data; any
/// other image converted to PNG, and nothing when it cannot be decoded.
pub fn image_from_target(target: &str, bytes: &[u8]) -> (r: Option<Vec<u8>>)
    ensures
        bytes@.len() == 0 ==> r is None,
        bytes@.len() > 0 && (target@ == "image/png"@ || has_prefix(bytes@, png_signature())) ==> (r matches Some(v)
            && v@ == bytes@),
        bytes@.len() > 0 && target@ != "image/png"@ && !has_prefix(bytes@, png_signature())
            && !image_loads(bytes@) ==> r is None,
        bytes@.len() > 0 && target@ != "image/png"@ && !has_prefix(bytes@, png_signature())
            && image_loads(bytes@) ==> match png_reencoding(bytes@) {
            Some(png) => r matches Some(v) && v@ == png,
            None => r is None,
        },
{
    if bytes.len() == 0 {
        return None;
    }
    if str_eq(target, "image/png") || crate::clipboard_backend::is_png(bytes) {
        return Some(vstd::slice::slice_to_vec(bytes));
    }
    match image_to_png(bytes) {
        Ok(png) => Some(png),
        Err(_) => None,
    }
}

/// An image made ready to write: converted to PNG where it can be, the
/// bytes as they are otherwise.
pub fn image_for_write(bitmap: &[u8]) -> (r: Vec<u8>)
    ensures
        has_prefix(bitmap@, png_signature()) ==> r@ == bitmap@,
        !has_prefix(bitmap@, png_signature()) && !image_loads(bitmap@) ==> r@ == bitmap@,
        !has_prefix(bitmap@, png_signature()) && image_loads(bitmap@) ==> r@ == match png_reencoding(bitmap@) {
            Some(png) => png,
            None => bitmap@,
        },
{
    match image_to_png(bitmap) {
        Ok(png) => png,
        Err(_) => vstd::slice::slice_to_vec(bitmap),
    }
}

/// The paths a clipboard value under a file target names: read as a GNOME
/// copied-files list under its own target, as a URI list under the others.
pub open spec fn spec_files_from_target(target: Seq<char>, text: Seq<char>) -> Seq<Seq<char>> {
    if target == gnome_files_type() {
        spec_parse_gnome_copied_files(text)
    } else {
        spec_parse_uri_list(text)
    }
}

/// Whether every path in such a value can be decoded.
pub open spec fn files_decodable(target: Seq<char>, text: Seq<char>) -> bool {
    if target == gnome_files_type() {
        all_uri_decodable(gnome_file_lines(spec_trimmed_lines(text)))
    } else {
        all_uri_decodable(uncommented(spec_trimmed_lines(text)))
    }
}

/// Whether the paths in bytes read under a target can be decoded.
pub fn target_files_decodable(target: &str, bytes: &[u8]) -> (r: bool)
    ensures
        r == files_decodable(target@, decode_lossy(bytes@)),
{
    let text = string_from_utf8_lossy(bytes);
    if str_eq(target, "x-special/gnome-copied-files") {
        crate::uri_list::gnome_list_decodable(text.as_str())
    } else {
        crate::uri_list::uri_list_decodable(text.as_str())
    }
}

/// The paths in bytes read under a file target.
pub fn files_from_target(target: &str, bytes: &[u8]) -> (r: Vec<String>)
    requires
        files_decodable(target@, decode_lossy(bytes@)),
    ensures
        string_views(r@) == spec_files_from_target(target@, decode_lossy(bytes@)),
{
    let text = string_from_utf8_lossy(bytes);
    if str_eq(target, "x-special/gnome-copied-files") {
        parse_gnome_copied_files(text.as_str())
    } else {
        parse_uri_list(text.as_str())
    }
}

/// What is read from the clipboard, by precedence: an image, else a file
/// list, else text; each only when not empty.
pub open spec fn spec_first_payload(
    image: Option<Seq<u8>>,
    files: Option<Seq<Seq<char>>>,
    text: Option<Seq<char>>,
) -> Option<ClipboardModel> {
    let image_bytes = match image {
        Some(b) => b,
        None => seq![],
    };
    let file_list = match files {
        Some(f) => f,
        None => seq![],
    };
    let text_chars = match text {
        Some(t) => t,
        None => seq![],
    };
    if image_bytes.len() > 0 {
        Some(ClipboardModel::Bitmap(image_bytes))
    } else if file_list.len() > 0 {
        Some(ClipboardModel::Files(file_list))
    } else if text_chars.len() > 0 {
        Some(ClipboardModel::Text(text_chars))
    } else {
        None
    }
}

/// The payload read from the clipboard, from what each kind of read gave.
pub fn first_payload(image: Option<Vec<u8>>, files: Option<Vec<String>>, text: Option<String>) -> (r:
    Option<ClipboardPayload>)
    ensures
        match r {
            Some(p) => spec_first_payload(
                match image {
                    Some(b) => Some(b@),
                    None => None,
                },
                match files {
                    Some(f) => Some(string_views(f@)),
                    None => None,
                },
                match text {
                    Some(t) => Some(t@),
                    None => None,
                },
            ) == Some(p@),
            None => spec_first_payload(
                match image {
                    Some(b) => Some(b@),
                    None => None,
                },
                match files {
                    Some(f) => Some(string_views(f@)),
                    None => None,
                },
                match text {
                    Some(t) => Some(t@),
                    None => None,
                },
            ) is None,
        },
{
    if let Some(b) = image {
        if b.len() > 0 {
            return Some(ClipboardPayload::Bitmap(b));
        }
    }
    if let Some(f) = files {
        if f.len() > 0 {
            return Some(ClipboardPayload::Files(f));
        }
    }
    if let Some(t) = text {
        if t.unicode_len() > 0 {
            return Some(ClipboardPayload::Text(t));
        }
    }
    None
}

} // verus!

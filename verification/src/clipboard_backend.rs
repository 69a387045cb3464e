use vstd::prelude::*;

use crate::display::DisplayServer;
use crate::file_uri::{has_prefix, path_to_file_uri, spec_path_to_file_uri};
use crate::lines::string_views;
use crate::text::{opt_view, utf8};
use crate::uri_list::{ascii_lower, bytes_eq_ignore_ascii_case, eq_ignore_ascii_case};

verus! {

/// The command-line tools the Linux clipboard goes through.
#[derive(Debug, Clone, Copy, PartialEq, Eq, Structural)]
pub enum ClipboardBackend {
    Wayland,
    X11Xclip,
    X11Xsel,
}

/// Why no clipboard tool can be used.
#[derive(Debug, Clone, Copy, PartialEq, Eq, Structural)]
pub enum BackendUnavailable {
    /// A Wayland session without wl-clipboard, xclip or xsel.
    Wayland,
    /// An X11 session without xclip or xsel.
    X11,
    /// A session of unknown kind without any of the tools.
    Unknown,
}

pub open spec fn backend_name(b: ClipboardBackend) -> Seq<char> {
    match b {
        ClipboardBackend::Wayland => "wl-clipboard"@,
        ClipboardBackend::X11Xclip => "xclip"@,
        ClipboardBackend::X11Xsel => "xsel"@,
    }
}

impl ClipboardBackend {
    pub fn as_str(self) -> (r: &'static str)
        ensures
            r@ == backend_name(self),
    {
        match self {
            ClipboardBackend::Wayland => "wl-clipboard",
            ClipboardBackend::X11Xclip => "xclip",
            ClipboardBackend::X11Xsel => "xsel",
        }
    }
}

pub open spec fn unavailable_message(e: BackendUnavailable) -> Seq<char> {
    match e {
        BackendUnavailable::Wayland => "Wayland clipboard requires wl-copy/wl-paste, or xclip/xsel fallback"@,
        BackendUnavailable::X11 => "X11 clipboard requires xclip or xsel; xclip is required for images/files"@,
        BackendUnavailable::Unknown => "Linux clipboard requires wl-copy/wl-paste or xclip/xsel"@,
    }
}

impl BackendUnavailable {
    pub fn message(self) -> (r: &'static str)
        ensures
            r@ == unavailable_message(self),
    {
        match self {
            BackendUnavailable::Wayland => "Wayland clipboard requires wl-copy/wl-paste, or xclip/xsel fallback",
            BackendUnavailable::X11 => "X11 clipboard requires xclip or xsel; xclip is required for images/files",
            BackendUnavailable::Unknown => "Linux clipboard requires wl-copy/wl-paste or xclip/xsel",
        }
    }
}

/// The backend for a session: on Wayland wl-clipboard first, then xclip,
/// then xsel; on X11 xclip, then xsel; in a session of unknown kind any of
/// the three, in that order.
pub open spec fn spec_select_backend(
    display: DisplayServer,
    wayland_ready: bool,
    xclip_ready: bool,
    xsel_ready: bool,
) -> Result<ClipboardBackend, BackendUnavailable> {
    if display != DisplayServer::X11 && wayland_ready {
        Ok(ClipboardBackend::Wayland)
    } else if xclip_ready {
        Ok(ClipboardBackend::X11Xclip)
    } else if xsel_ready {
        Ok(ClipboardBackend::X11Xsel)
    } else {
        Err(
            match display {
                DisplayServer::Wayland => BackendUnavailable::Wayland,
                DisplayServer::X11 => BackendUnavailable::X11,
                DisplayServer::Unknown => BackendUnavailable::Unknown,
            },
        )
    }
}

/// The clipboard backend for a session, given which tools are installed.
pub fn select_backend(
    display: DisplayServer,
    wayland_ready: bool,
    xclip_ready: bool,
    xsel_ready: bool,
) -> (r: Result<ClipboardBackend, BackendUnavailable>)
    ensures
        r == spec_select_backend(display, wayland_ready, xclip_ready, xsel_ready),
{
    match display {
        DisplayServer::Wayland => {
            if wayland_ready {
                Ok(ClipboardBackend::Wayland)
            } else if xclip_ready {
                Ok(ClipboardBackend::X11Xclip)
            } else if xsel_ready {
                Ok(ClipboardBackend::X11Xsel)
            } else {
                Err(BackendUnavailable::Wayland)
            }
        },
        DisplayServer::X11 => {
            if xclip_ready {
                Ok(ClipboardBackend::X11Xclip)
            } else if xsel_ready {
                Ok(ClipboardBackend::X11Xsel)
            } else {
                Err(BackendUnavailable::X11)
            }
        },
        DisplayServer::Unknown => {
            if wayland_ready {
                Ok(ClipboardBackend::Wayland)
            } else if xclip_ready {
                Ok(ClipboardBackend::X11Xclip)
            } else if xsel_ready {
                Ok(ClipboardBackend::X11Xsel)
            } else {
                Err(BackendUnavailable::Unknown)
            }
        },
    }
}

/// The two clipboard targets a file list is offered under.
#[derive(Debug, Clone, Copy, PartialEq, Eq, Structural)]
pub enum FileTarget {
    /// `x-special/gnome-copied-files`
    GnomeCopiedFiles,
    /// `text/uri-list`
    UriList,
}

pub open spec fn file_target_name(t: FileTarget) -> Seq<char> {
    match t {
        FileTarget::GnomeCopiedFiles => "x-special/gnome-copied-files"@,
        FileTarget::UriList => "text/uri-list"@,
    }
}

impl FileTarget {
    pub fn as_str(self) -> (r: &'static str)
        ensures
            r@ == file_target_name(self),
    {
        match self {
            FileTarget::GnomeCopiedFiles => "x-special/gnome-copied-files",
            FileTarget::UriList => "text/uri-list",
        }
    }
}

/// Whether `needle` occurs in `hay`.
pub open spec fn contains_bytes(hay: Seq<u8>, needle: Seq<u8>) -> bool {
    exists|i: int|
        0 <= i && i + needle.len() <= hay.len() && #[trigger] hay.subrange(i, i + needle.len())
            == needle
}

/// The bytes with ASCII letters lower-cased.
pub open spec fn lower_all(b: Seq<u8>) -> Seq<u8> {
    b.map_values(|x: u8| ascii_lower(x))
}

fn lower_byte(b: u8) -> (r: u8)
    ensures
        r == ascii_lower(b),
{
    if 0x41 <= b && b <= 0x5a {
        b + 0x20
    } else {
        b
    }
}

/// Whether `needle` occurs in `hay` once ASCII letters of `hay` are
/// lower-cased.
pub fn contains_lowered(hay: &[u8], needle: &[u8]) -> (r: bool)
    ensures
        r == contains_bytes(lower_all(hay@), needle@),
{
    let ghost low = lower_all(hay@);
    let hay_len = hay.len();
    if needle.len() > hay_len {
        return false;
    }
    let mut i: usize = 0;
    while i <= hay.len() - needle.len()
        invariant
            hay_len == hay@.len(),
            needle@.len() <= hay@.len(),
            low == lower_all(hay@),
            i <= hay@.len() - needle@.len() + 1,
            forall|k: int| 0 <= k < i ==> #[trigger] low.subrange(k, k + needle@.len()) != needle@,
        decreases hay@.len() - i,
    {
        let mut j: usize = 0;
        let mut same = true;
        while j < needle.len()
            invariant
                hay_len == hay@.len(),
                i + needle@.len() <= hay@.len(),
                low == lower_all(hay@),
                j <= needle@.len(),
                same == forall|m: int| 0 <= m < j ==> low[i + m] == needle@[m],
            decreases needle@.len() - j,
        {
            let at: usize = i + j;
            if lower_byte(hay[at]) != needle[j] {
                same = false;
            }
            j = j + 1;
        }
        if same {
            assert(low.subrange(i as int, i + needle@.len()) =~= needle@);
            return true;
        }
        proof {
            let m = choose|m: int| 0 <= m < needle@.len() && low[i + m] != needle@[m];
            assert(low.subrange(i as int, i + needle@.len())[m] != needle@[m]);
        }
        i = i + 1;
    }
    proof {
        assert forall|k: int|
            0 <= k && k + needle@.len() <= low.len() implies #[trigger] low.subrange(
            k,
            k + needle@.len(),
        ) != needle@ by {
            assert(k < i);
        }
    }
    false
}

/// The order in which the two file targets are offered: an override
/// ("uri-list" or "text/uri-list"; "gnome" or
/// "x-special/gnome-copied-files"; ASCII case ignored) decides; otherwise a
/// KDE or Plasma desktop prefers the URI list, any other the GNOME form.
pub open spec fn spec_file_write_targets(
    target_override: Option<Seq<char>>,
    desktop: Option<Seq<char>>,
) -> (FileTarget, FileTarget) {
    let uri_first = (FileTarget::UriList, FileTarget::GnomeCopiedFiles);
    let gnome_first = (FileTarget::GnomeCopiedFiles, FileTarget::UriList);
    if target_override matches Some(v) && (eq_ignore_ascii_case(utf8(v), utf8("uri-list"@))
        || eq_ignore_ascii_case(utf8(v), utf8("text/uri-list"@))) {
        uri_first
    } else if target_override matches Some(v) && (eq_ignore_ascii_case(utf8(v), utf8("gnome"@))
        || eq_ignore_ascii_case(utf8(v), utf8("x-special/gnome-copied-files"@))) {
        gnome_first
    } else if desktop matches Some(d) && (contains_bytes(lower_all(utf8(d)), utf8("kde"@))
        || contains_bytes(lower_all(utf8(d)), utf8("plasma"@))) {
        uri_first
    } else {
        gnome_first
    }
}

/// The order in which a file list is offered to the clipboard, from the
/// target override and the current desktop's name, when they are set.
pub fn preferred_file_write_targets(target_override: Option<&str>, desktop: Option<&str>) -> (r: (
    FileTarget,
    FileTarget,
))
    ensures
        r == spec_file_write_targets(
            match target_override {
                Some(v) => Some(v@),
                None => None,
            },
            match desktop {
                Some(d) => Some(d@),
                None => None,
            },
        ),
{
    if let Some(v) = target_override {
        let b = v.as_bytes();
        if bytes_eq_ignore_ascii_case(b, "uri-list".as_bytes()) || bytes_eq_ignore_ascii_case(
            b,
            "text/uri-list".as_bytes(),
        ) {
            return (FileTarget::UriList, FileTarget::GnomeCopiedFiles);
        }
        if bytes_eq_ignore_ascii_case(b, "gnome".as_bytes()) || bytes_eq_ignore_ascii_case(
            b,
            "x-special/gnome-copied-files".as_bytes(),
        ) {
            return (FileTarget::GnomeCopiedFiles, FileTarget::UriList);
        }
    }
    if let Some(d) = desktop {
        let b = d.as_bytes();
        if contains_lowered(b, "kde".as_bytes()) || contains_lowered(b, "plasma".as_bytes()) {
            return (FileTarget::UriList, FileTarget::GnomeCopiedFiles);
        }
    }
    (FileTarget::GnomeCopiedFiles, FileTarget::UriList)
}

/// The bytes of CR LF.
pub open spec fn crlf() -> Seq<u8> {
    seq![0x0du8, 0x0a]
}

/// Each path's file URI followed by CR LF.
pub open spec fn uri_lines_bytes(paths: Seq<Seq<char>>) -> Seq<u8>
    decreases paths.len(),
{
    if paths.len() == 0 {
        seq![]
    } else {
        uri_lines_bytes(paths.drop_last()) + spec_path_to_file_uri(paths.last()) + crlf()
    }
}

/// The `text/uri-list` value for a list of paths: their file URIs joined by
/// CR LF, with a CR LF after the last.
pub open spec fn spec_files_to_uri_list(paths: Seq<Seq<char>>) -> Seq<u8> {
    if paths.len() == 0 {
        crlf()
    } else {
        uri_lines_bytes(paths)
    }
}

/// The `text/uri-list` value for a list of paths.
pub fn files_to_uri_list(paths: &[String]) -> (r: String)
    ensures
        utf8(r@) == spec_files_to_uri_list(string_views(paths@)),
{
    let mut out = String::new();
    let mut k: usize = 0;
    proof {
        assert(string_views(paths@.take(0)) =~= Seq::<Seq<char>>::empty());
    }
    while k < paths.len()
        invariant
            k <= paths@.len(),
            utf8(out@) == uri_lines_bytes(string_views(paths@.take(k as int))),
        decreases paths@.len() - k,
    {
        let uri = path_to_file_uri(paths[k].as_str());
        let ghost before = out@;
        out.append(uri.as_str());
        out.append("\r\n");
        proof {
            reveal_strlit("\r\n");
            assert(string_views(paths@.take(k + 1)).drop_last() =~= string_views(
                paths@.take(k as int),
            ));
            assert(string_views(paths@.take(k + 1)).last() == paths@[k as int]@);
            crate::text::lemma_utf8_concat(before, uri@);
            crate::text::lemma_utf8_concat(before + uri@, "\r\n"@);
            crate::text::lemma_utf8_ascii("\r\n"@);
            assert(utf8("\r\n"@) =~= crlf());
        }
        k = k + 1;
    }
    assert(paths@.take(k as int) =~= paths@);
    if paths.len() == 0 {
        out.append("\r\n");
        proof {
            reveal_strlit("\r\n");
            assert(out@ =~= "\r\n"@);
            crate::text::lemma_utf8_ascii("\r\n"@);
            assert(utf8("\r\n"@) =~= crlf());
        }
    }
    out
}

/// The signature every PNG file starts with.
pub open spec fn png_signature() -> Seq<u8> {
    seq![0x89u8, 0x50, 0x4e, 0x47, 0x0d, 0x0a, 0x1a, 0x0a]
}

/// Whether the bytes start with the PNG signature.
pub fn is_png(bytes: &[u8]) -> (r: bool)
    ensures
        r == has_prefix(bytes@, png_signature()),
{
    if bytes.len() < 8 {
        return false;
    }
    let r = bytes[0] == 0x89 && bytes[1] == 0x50 && bytes[2] == 0x4e && bytes[3] == 0x47
        && bytes[4] == 0x0d && bytes[5] == 0x0a && bytes[6] == 0x1a && bytes[7] == 0x0a;
    proof {
        if r {
            assert(bytes@.take(8) =~= png_signature());
        } else {
            assert(bytes@.take(8) != png_signature()) by {
                if bytes@.take(8) == png_signature() {
                    assert(bytes@.take(8)[0] == bytes@[0]);
                    assert(bytes@.take(8)[1] == bytes@[1]);
                    assert(bytes@.take(8)[2] == bytes@[2]);
                    assert(bytes@.take(8)[3] == bytes@[3]);
                    assert(bytes@.take(8)[4] == bytes@[4]);
                    assert(bytes@.take(8)[5] == bytes@[5]);
                    assert(bytes@.take(8)[6] == bytes@[6]);
                    assert(bytes@.take(8)[7] == bytes@[7]);
                }
            }
        }
    }
    r
}

/// Whether `image::load_from_memory` decodes these bytes into an image.
pub uninterp spec fn image_loads(bytes: Seq<u8>) -> bool;

/// What `image::DynamicImage::write_to` writes with `ImageFormat::Png` for
/// the image decoded from these bytes; `None` when the encoder fails.
pub uninterp spec fn png_reencoding(bytes: Seq<u8>) -> Option<Seq<u8>>;

/// Why clipboard image data could not be turned into PNG.
#[derive(Debug, Clone, Copy, PartialEq, Eq, Structural)]
pub enum ImageConversionError {
    /// The bytes are no image that can be decoded.
    InvalidImage,
    /// The decoded image could not be encoded as PNG.
    EncodeFailed,
}

/// Decodes an image, its format guessed from its first bytes, and encodes
/// it again as PNG into memory.
///
/// Calls `image::load_from_memory`, then `image::DynamicImage::write_to`
/// with `ImageFormat::Png` on an in-memory cursor. Both depend on the bytes
/// alone (the format guessed from them, the default decoding limits and the
/// PNG encoder's default settings): whether decoding succeeds is named
/// `image_loads`, and what encoding gives is named `png_reencoding`.
#[verifier::external_body]
fn reencode_png(bytes: &[u8]) -> (r: Result<Vec<u8>, ImageConversionError>)
    ensures
        !image_loads(bytes@) ==> (r is Err && r->Err_0 == ImageConversionError::InvalidImage),
        image_loads(bytes@) && png_reencoding(bytes@) is None ==> (r is Err && r->Err_0 == ImageConversionError::EncodeFailed),
        image_loads(bytes@) && png_reencoding(bytes@) is Some ==> (r is Ok && r->Ok_0@ == png_reencoding(bytes@)->0),
{
    let image = match image::load_from_memory(bytes) {
        Ok(image) => image,
        Err(_) => return Err(ImageConversionError::InvalidImage),
    };
    let mut cursor = std::io::Cursor::new(Vec::new());
    match image.write_to(&mut cursor, image::ImageFormat::Png) {
        Ok(()) => Ok(cursor.into_inner()),
        Err(_) => Err(ImageConversionError::EncodeFailed),
    }
}

/// Clipboard image data as PNG: PNG data as it is; any other image format
/// decoded and encoded again as PNG.
pub fn image_to_png(bytes: &[u8]) -> (r: Result<Vec<u8>, ImageConversionError>)
    ensures
        has_prefix(bytes@, png_signature()) ==> (r matches Ok(v) && v@ == bytes@),
        !has_prefix(bytes@, png_signature()) && !image_loads(bytes@) ==> r == Err::<
            Vec<u8>,
            ImageConversionError,
        >(ImageConversionError::InvalidImage),
        !has_prefix(bytes@, png_signature()) && image_loads(bytes@) ==> match png_reencoding(bytes@) {
            Some(png) => r matches Ok(v) && v@ == png,
            None => r == Err::<Vec<u8>, ImageConversionError>(ImageConversionError::EncodeFailed),
        },
{
    if is_png(bytes) {
        return Ok(vstd::slice::slice_to_vec(bytes));
    }
    reencode_png(bytes)
}

/// The bytes, or `None` when there are none.
pub fn non_empty(bytes: Vec<u8>) -> (r: Option<Vec<u8>>)
    ensures
        bytes@.len() == 0 ==> r is None,
        bytes@.len() > 0 ==> r == Some(bytes),
{
    if bytes.len() == 0 {
        None
    } else {
        Some(bytes)
    }
}

} // verus!

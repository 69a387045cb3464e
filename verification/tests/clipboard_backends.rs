use deskbridge::clipboard_backend::{
    files_to_uri_list, image_to_png, is_png, non_empty, preferred_file_write_targets,
    select_backend, BackendUnavailable, ClipboardBackend, FileTarget, ImageConversionError,
};
use deskbridge::clipboard_sync::{ClipboardKind, ClipboardSyncState};
use deskbridge::display::DisplayServer;
use deskbridge::protocol::{encode_clipboard, ClipboardPayload};

#[test]
fn backend_follows_the_session_and_the_tools() {
    assert_eq!(select_backend(DisplayServer::Wayland, true, true, true), Ok(ClipboardBackend::Wayland));
    assert_eq!(select_backend(DisplayServer::Wayland, false, false, true), Ok(ClipboardBackend::X11Xsel));
    assert_eq!(select_backend(DisplayServer::X11, true, false, true), Ok(ClipboardBackend::X11Xsel));
    assert_eq!(select_backend(DisplayServer::X11, true, false, false), Err(BackendUnavailable::X11));
    assert_eq!(select_backend(DisplayServer::Unknown, false, true, false), Ok(ClipboardBackend::X11Xclip));
    assert_eq!(select_backend(DisplayServer::Wayland, false, false, false), Err(BackendUnavailable::Wayland));
    assert_eq!(
        BackendUnavailable::Unknown.message(),
        "Linux clipboard requires wl-copy/wl-paste or xclip/xsel"
    );
    assert_eq!(ClipboardBackend::Wayland.as_str(), "wl-clipboard");
}

#[test]
fn file_targets_follow_override_then_desktop() {
    let uri_first = (FileTarget::UriList, FileTarget::GnomeCopiedFiles);
    let gnome_first = (FileTarget::GnomeCopiedFiles, FileTarget::UriList);
    assert_eq!(preferred_file_write_targets(Some("URI-LIST"), Some("GNOME")), uri_first);
    assert_eq!(preferred_file_write_targets(Some("gnome"), Some("KDE")), gnome_first);
    assert_eq!(preferred_file_write_targets(Some("other"), Some("ubuntu:KDE")), uri_first);
    assert_eq!(preferred_file_write_targets(None, Some("Plasma")), uri_first);
    assert_eq!(preferred_file_write_targets(None, None), gnome_first);
    assert_eq!(FileTarget::UriList.as_str(), "text/uri-list");
}

#[test]
fn uri_list_of_files_ends_each_line_with_crlf() {
    assert_eq!(
        files_to_uri_list(&["/a b".to_string(), "/c".to_string()]),
        "file:///a%20b\r\nfile:///c\r\n"
    );
    assert_eq!(files_to_uri_list(&[]), "\r\n");
}

#[test]
fn png_data_is_kept_and_other_images_are_converted() {
    let png_head = [0x89u8, b'P', b'N', b'G', 0x0d, 0x0a, 0x1a, 0x0a, 1, 2, 3];
    assert!(is_png(&png_head));
    assert!(!is_png(&png_head[..7]));
    assert_eq!(image_to_png(&png_head), Ok(png_head.to_vec()));
    assert_eq!(image_to_png(b"not an image"), Err(ImageConversionError::InvalidImage));

    // A 1x1 24-bit BMP holding one red pixel.
    let mut bmp: Vec<u8> = Vec::new();
    bmp.extend_from_slice(b"BM");
    bmp.extend_from_slice(&58u32.to_le_bytes());
    bmp.extend_from_slice(&0u32.to_le_bytes());
    bmp.extend_from_slice(&54u32.to_le_bytes());
    bmp.extend_from_slice(&40u32.to_le_bytes());
    bmp.extend_from_slice(&1i32.to_le_bytes());
    bmp.extend_from_slice(&1i32.to_le_bytes());
    bmp.extend_from_slice(&1u16.to_le_bytes());
    bmp.extend_from_slice(&24u16.to_le_bytes());
    bmp.extend_from_slice(&0u32.to_le_bytes());
    bmp.extend_from_slice(&4u32.to_le_bytes());
    bmp.extend_from_slice(&2835i32.to_le_bytes());
    bmp.extend_from_slice(&2835i32.to_le_bytes());
    bmp.extend_from_slice(&0u32.to_le_bytes());
    bmp.extend_from_slice(&0u32.to_le_bytes());
    bmp.extend_from_slice(&[0, 0, 255, 0]);
    let png = image_to_png(&bmp).expect("a BMP converts");
    assert!(is_png(&png));
    assert_ne!(png, bmp);
    assert_eq!(non_empty(Vec::new()), None);
    assert_eq!(non_empty(vec![1]), Some(vec![1]));
}

#[test]
fn remote_clipboard_writes_are_not_echoed_back() {
    let mut state = ClipboardSyncState::new();
    let remote = ClipboardPayload::Text("from peer".to_string());
    state.note_remote_write(&remote, 1000);
    assert!(!state.accept_local_change(&remote, encode_clipboard(&remote), 1100));
    let echo = ClipboardPayload::Text("changed".to_string());
    let mut state = ClipboardSyncState::new();
    state.note_remote_write(&remote, 1000);
    assert!(!state.accept_local_change(&echo, encode_clipboard(&echo), 1500));
    let other = ClipboardPayload::Text("later".to_string());
    assert!(state.accept_local_change(&other, encode_clipboard(&other), 1600));
    assert!(!state.accept_local_change(&other, encode_clipboard(&other), 1700));
}

#[test]
fn clipboard_echo_window_expires() {
    let mut state = ClipboardSyncState::new();
    let remote = ClipboardPayload::Bitmap(vec![1, 2, 3]);
    state.note_remote_write(&remote, 1000);
    assert!(!state.should_suppress(ClipboardKind::Text, 1100));
    assert!(!state.should_suppress(ClipboardKind::Bitmap, 2201));
    assert!(!state.should_suppress(ClipboardKind::Bitmap, 2000));
    assert_eq!(ClipboardKind::from_payload(&ClipboardPayload::Files(vec![])), ClipboardKind::Files);
}

use deskbridge::clipboard_backend::{ClipboardBackend, FileTarget};
use deskbridge::clipboard_commands::{
    file_read_targets, files_from_target, first_payload, image_for_write, image_from_target,
    image_read_targets, read_plain_command, read_target_command, target_files_decodable,
    text_from_clipboard, text_read_targets, write_files_commands, write_image_command,
    write_text_commands, CommandLine, XselUnsupported,
};
use deskbridge::mac_clipboard::{
    join_paths, mac_payload, normalize_newlines, output_lines, paths_from_output,
    text_from_output, InvalidUtf8, MacClipboardState,
};
use deskbridge::protocol::ClipboardPayload;
use deskbridge::uri_list::{gnome_list_decodable, uri_list_decodable};

fn cmd(program: &str, args: &[&str]) -> CommandLine {
    CommandLine {
        program: program.to_string(),
        args: args.iter().map(|a| a.to_string()).collect(),
    }
}

const PNG: [u8; 8] = [0x89, 0x50, 0x4e, 0x47, 0x0d, 0x0a, 0x1a, 0x0a];

#[test]
fn targets_are_read_with_the_backend_tool() {
    assert_eq!(
        read_target_command(ClipboardBackend::Wayland, "text/plain"),
        Some(cmd("wl-paste", &["--type", "text/plain"]))
    );
    assert_eq!(
        read_target_command(ClipboardBackend::X11Xclip, "image/png"),
        Some(cmd("xclip", &["-selection", "clipboard", "-out", "-target", "image/png"]))
    );
    assert_eq!(read_target_command(ClipboardBackend::X11Xsel, "image/png"), None);
    assert_eq!(read_plain_command(ClipboardBackend::Wayland), cmd("wl-paste", &["--no-newline"]));
    assert_eq!(
        read_plain_command(ClipboardBackend::X11Xclip),
        cmd("xclip", &["-selection", "clipboard", "-out"])
    );
    assert_eq!(
        read_plain_command(ClipboardBackend::X11Xsel),
        cmd("xsel", &["--clipboard", "--output"])
    );
}

#[test]
fn read_targets_follow_the_backend() {
    assert_eq!(
        text_read_targets(ClipboardBackend::Wayland),
        vec!["text/plain;charset=utf-8", "text/plain", "UTF8_STRING", "STRING"]
    );
    assert!(text_read_targets(ClipboardBackend::X11Xsel).is_empty());
    assert_eq!(
        image_read_targets(ClipboardBackend::X11Xclip),
        vec!["image/png", "image/jpeg", "image/bmp", "image/tiff"]
    );
    assert!(image_read_targets(ClipboardBackend::X11Xsel).is_empty());
    assert_eq!(file_read_targets(ClipboardBackend::Wayland)[0], "x-special/gnome-copied-files");
    assert_eq!(file_read_targets(ClipboardBackend::Wayland).len(), 5);
    assert!(file_read_targets(ClipboardBackend::X11Xsel).is_empty());
}

#[test]
fn text_is_written_with_a_fallback_for_xclip() {
    assert_eq!(
        write_text_commands(ClipboardBackend::X11Xclip),
        vec![
            cmd("xclip", &["-selection", "clipboard", "-in", "-target", "text/plain;charset=utf-8"]),
            cmd("xclip", &["-selection", "clipboard", "-in"]),
        ]
    );
    assert_eq!(
        write_text_commands(ClipboardBackend::Wayland),
        vec![cmd("wl-copy", &["--type", "text/plain;charset=utf-8"])]
    );
    assert_eq!(
        write_text_commands(ClipboardBackend::X11Xsel),
        vec![cmd("xsel", &["--clipboard", "--input"])]
    );
}

#[test]
fn xsel_writes_no_images_or_files() {
    assert_eq!(
        write_image_command(ClipboardBackend::Wayland),
        Ok(cmd("wl-copy", &["--type", "image/png"]))
    );
    assert_eq!(write_image_command(ClipboardBackend::X11Xsel), Err(XselUnsupported::Images));
    assert_eq!(
        XselUnsupported::Images.message(),
        "image clipboard on X11 requires xclip; xsel only supports text"
    );
    assert_eq!(
        write_files_commands(ClipboardBackend::X11Xsel, (FileTarget::UriList, FileTarget::GnomeCopiedFiles)),
        Err(XselUnsupported::Files)
    );
    assert_eq!(
        write_files_commands(ClipboardBackend::X11Xclip, (FileTarget::UriList, FileTarget::GnomeCopiedFiles))
            .unwrap(),
        vec![
            (cmd("xclip", &["-selection", "clipboard", "-in", "-target", "text/uri-list"]), FileTarget::UriList),
            (
                cmd("xclip", &["-selection", "clipboard", "-in", "-target", "x-special/gnome-copied-files"]),
                FileTarget::GnomeCopiedFiles
            ),
        ]
    );
}

#[test]
fn read_bytes_become_text_images_and_files() {
    assert_eq!(text_from_clipboard(b""), None);
    assert_eq!(text_from_clipboard(b"hi\xff"), Some("hi\u{FFFD}".to_string()));
    assert_eq!(image_from_target("image/png", b"raw"), Some(b"raw".to_vec()));
    assert_eq!(image_from_target("image/bmp", &PNG), Some(PNG.to_vec()));
    assert_eq!(image_from_target("image/bmp", b"not an image"), None);
    assert_eq!(image_from_target("image/jpeg", b""), None);
    assert_eq!(image_for_write(&PNG), PNG.to_vec());
    assert_eq!(image_for_write(b"junk"), b"junk".to_vec());
    let list = b"file:///tmp/a%20b\n# comment\nhttp://example.com/x\n";
    assert!(target_files_decodable("text/uri-list", list));
    assert_eq!(files_from_target("text/uri-list", list), vec!["/tmp/a b".to_string()]);
    let gnome = b"copy\nfile:///home/u/f.txt\n";
    assert_eq!(
        files_from_target("x-special/gnome-copied-files", gnome),
        vec!["/home/u/f.txt".to_string()]
    );
    assert!(!target_files_decodable("text/uri-list", "file:///%4\u{e9}".as_bytes()));
    assert!(!uri_list_decodable("file:///%4\u{e9}"));
    assert!(gnome_list_decodable("copy\nfile:///ok%20"));
}

#[test]
fn an_image_goes_before_files_and_files_before_text() {
    assert_eq!(
        first_payload(Some(vec![1]), Some(vec!["/a".to_string()]), Some("t".to_string())),
        Some(ClipboardPayload::Bitmap(vec![1]))
    );
    assert_eq!(
        first_payload(Some(vec![]), Some(vec!["/a".to_string()]), Some("t".to_string())),
        Some(ClipboardPayload::Files(vec!["/a".to_string()]))
    );
    assert_eq!(
        first_payload(None, Some(vec![]), Some("t".to_string())),
        Some(ClipboardPayload::Text("t".to_string()))
    );
    assert_eq!(first_payload(None, None, Some(String::new())), None);
}

#[test]
fn the_mac_clipboard_is_read_when_its_count_moves() {
    let mut state = MacClipboardState::new();
    assert!(state.observe_change_count(Some(3)));
    assert!(!state.observe_change_count(Some(3)));
    assert!(state.observe_change_count(Some(4)));
    assert!(state.observe_change_count(None));
    assert_eq!(state.last_change_count, None);
    assert!(state.observe_change_count(Some(4)));
}

#[test]
fn mac_text_gets_line_feeds() {
    assert_eq!(normalize_newlines("a\r\nb\rc\r\r\n"), "a\nb\nc\n\n");
    assert_eq!(text_from_output(b""), Ok(None));
    assert_eq!(text_from_output(b"\xff"), Err(InvalidUtf8));
    assert_eq!(text_from_output(b"x\r\ny"), Ok(Some("x\ny".to_string())));
}

#[test]
fn mac_paths_are_read_and_written_one_per_line() {
    assert_eq!(output_lines("a\nb\r\n\nc\n"), vec!["a", "b", "", "c"]);
    assert!(output_lines("").is_empty());
    assert_eq!(paths_from_output(b"/x\n/y"), vec!["/x", "/y"]);
    assert_eq!(join_paths(&["/a".to_string(), "/b".to_string()]), "/a\n/b");
    assert_eq!(join_paths(&[]), "");
}

#[test]
fn mac_files_go_first_and_file_markers_stop_the_read() {
    assert_eq!(
        mac_payload(Some(vec!["/f".to_string()]), true, Some("t".to_string()), None),
        Some(ClipboardPayload::Files(vec!["/f".to_string()]))
    );
    assert_eq!(mac_payload(None, true, Some("t".to_string()), Some(vec![1])), None);
    assert_eq!(
        mac_payload(None, false, Some("t".to_string()), Some(vec![1])),
        Some(ClipboardPayload::Text("t".to_string()))
    );
    assert_eq!(
        mac_payload(None, false, None, Some(vec![1])),
        Some(ClipboardPayload::Bitmap(vec![1]))
    );
    assert_eq!(mac_payload(None, false, None, None), None);
}

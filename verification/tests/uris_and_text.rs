use deskbridge::file_uri::{
    file_uri_to_path, path_to_file_uri, percent_decode_bytes, percent_decode_path,
    percent_encode_path,
};
use deskbridge::lines::trimmed_lines;
use deskbridge::clipboard_commands::text_from_clipboard;
use deskbridge::text::trim;
use deskbridge::tokens::{parse_i32, parse_u32, parse_u64, parse_unsigned, split_whitespace};
use deskbridge::uri_list::{parse_gnome_copied_files, parse_uri_list, uri_list_to_gnome_copied_files};

#[test]
fn paths_are_percent_encoded() {
    assert_eq!(percent_encode_path("/home/me/a b.txt"), "/home/me/a%20b.txt");
    assert_eq!(percent_encode_path("ü~_-."), "%C3%BC~_-.");
    assert_eq!(path_to_file_uri("/tmp/x y"), "file:///tmp/x%20y");
}

#[test]
fn percent_decoding_reads_escapes_and_keeps_the_rest() {
    assert_eq!(percent_decode_path("a%20b"), "a b");
    assert_eq!(percent_decode_path("%C3%bc"), "ü");
    assert_eq!(percent_decode_path("100%"), "100%");
    assert_eq!(percent_decode_path("%zz"), "%zz");
    assert_eq!(percent_decode_path("%+5x"), "\u{5}x");
    assert_eq!(percent_decode_bytes(b"%ff"), vec![0xff]);
    assert_eq!(percent_decode_path("%ff"), "\u{fffd}");
}

#[test]
fn file_uris_read_back_as_paths() {
    assert_eq!(file_uri_to_path("file:///tmp/a%20b"), Some("/tmp/a b".to_string()));
    assert_eq!(file_uri_to_path("file://localhost/etc/x"), Some("/etc/x".to_string()));
    assert_eq!(file_uri_to_path("http://example.com"), None);
    for path in ["/tmp/x y", "/home/ü/%41", "/a/b"] {
        assert_eq!(file_uri_to_path(&path_to_file_uri(path)), Some(path.to_string()));
    }
    assert_eq!(file_uri_to_path(&path_to_file_uri("localhost/x")), Some("/x".to_string()));
}

#[test]
fn uri_lists_skip_comments_and_blank_lines() {
    let list = "# comment\r\nfile:///tmp/a\r\n\r\n  file:///tmp/b%20c  \r\nhttp://x\n";
    assert_eq!(parse_uri_list(list), vec!["/tmp/a".to_string(), "/tmp/b c".to_string()]);
    assert!(parse_uri_list("").is_empty());
}

#[test]
fn gnome_copied_files_start_with_an_action() {
    assert_eq!(
        parse_gnome_copied_files("copy\nfile:///tmp/a\nfile:///tmp/b"),
        vec!["/tmp/a".to_string(), "/tmp/b".to_string()]
    );
    assert_eq!(parse_gnome_copied_files("CUT\nfile:///tmp/a"), vec!["/tmp/a".to_string()]);
    assert_eq!(parse_gnome_copied_files("file:///tmp/a\n"), vec!["/tmp/a".to_string()]);
    assert!(parse_gnome_copied_files("paste\nfile:///tmp/a").is_empty());
    assert_eq!(
        uri_list_to_gnome_copied_files("file:///a\r\n\r\n file:///b \r\n"),
        "copy\nfile:///a\nfile:///b\n"
    );
    assert_eq!(uri_list_to_gnome_copied_files(""), "copy\n\n");
}

#[test]
fn lines_words_and_numbers() {
    assert_eq!(trimmed_lines(" a \n\n b\r\n"), vec!["a", "b"]);
    assert_eq!(split_whitespace("  x\ty  z "), vec!["x", "y", "z"]);
    assert_eq!(trim("\u{3000} x \t"), "x");
    assert_eq!(parse_u32("+42"), Some(42));
    assert_eq!(parse_u32("4294967295"), Some(u32::MAX));
    assert_eq!(parse_u32("4294967296"), None);
    assert_eq!(parse_u32("-1"), None);
    assert_eq!(parse_u32("+"), None);
    assert_eq!(parse_u32(""), None);
    assert_eq!(parse_u64("0018"), Some(18));
    assert_eq!(parse_i32("-2147483648"), Some(i32::MIN));
    assert_eq!(parse_i32("2147483648"), None);
    assert_eq!(parse_i32("-"), None);
    assert_eq!(parse_unsigned("fF", 16, u128::MAX), Some(255));
    assert_eq!(text_from_clipboard(b"ok\xff"), Some("ok\u{fffd}".to_string()));
}

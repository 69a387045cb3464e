use deskbridge::clipboard_backend::files_to_uri_list;
use deskbridge::mac_clipboard::normalize_newlines;
use deskbridge::uri_list::{
    parse_gnome_copied_files, parse_uri_list, uri_list_decodable, uri_list_to_gnome_copied_files,
};

#[test]
fn a_written_uri_list_reads_back_as_its_paths() {
    let paths = vec!["/a b".to_string(), "/tmp/ü%".to_string(), "/c".to_string()];
    let text = files_to_uri_list(&paths);
    assert!(uri_list_decodable(&text));
    assert_eq!(parse_uri_list(&text), paths);
}

#[test]
fn newlines_come_out_as_line_feeds_only() {
    let out = normalize_newlines("x\r\ny\r\rz\n");
    assert_eq!(out, "x\ny\n\nz\n");
    assert!(!out.contains('\r'));
    assert_eq!(normalize_newlines(&out), out);
}

#[test]
fn a_copied_files_value_names_the_same_files_as_its_uri_list() {
    let list = "file:///tmp/a%20b\r\n  file:///c\r\n\r\nhttp://x/\r\n";
    let gnome = uri_list_to_gnome_copied_files(list);
    assert_eq!(gnome, "copy\nfile:///tmp/a%20b\nfile:///c\nhttp://x/\n");
    assert_eq!(parse_gnome_copied_files(&gnome), parse_uri_list(list));
    assert_eq!(parse_gnome_copied_files("copy\nfile:///tmp/a%20b\n"), vec!["/tmp/a b".to_string()]);
}

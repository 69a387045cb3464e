use std::cmp::Ordering;

use deskbridge::file_transfer::{
    bundle_within_limit, relative_to_string, safe_relative_path, ChunkTooLong, ReceiveBudget,
    UnsafePath, MAX_BUNDLE_SIZE,
};
use deskbridge::version::{compare_versions, normalize_version, version_parts};

#[test]
fn versions_are_normalized() {
    assert_eq!(normalize_version("  v1.2.3 "), "1.2.3");
    assert_eq!(normalize_version("vv0.9"), "0.9");
    assert_eq!(normalize_version("1.0"), "1.0");
    assert_eq!(normalize_version("   "), "");
}

#[test]
fn version_parts_take_leading_digits_and_default_to_zero() {
    assert_eq!(version_parts("v1.2.3"), [1, 2, 3]);
    assert_eq!(version_parts("0.10"), [0, 10, 0]);
    assert_eq!(version_parts("1.2.3-beta.4"), [1, 2, 3]);
    assert_eq!(version_parts("x.y"), [0, 0, 0]);
    assert_eq!(version_parts(""), [0, 0, 0]);
    assert_eq!(version_parts("99999999999999999999.1"), [0, 1, 0]);
}

#[test]
fn versions_compare_part_by_part() {
    assert_eq!(compare_versions("1.2.3", "v1.2.3"), Ordering::Equal);
    assert_eq!(compare_versions("1.2", "1.10"), Ordering::Less);
    assert_eq!(compare_versions("2.0.0", "1.99.99"), Ordering::Greater);
    assert_eq!(compare_versions("1.2.3", "1.2.4"), Ordering::Less);
    assert_eq!(compare_versions("1.2.3.9", "1.2.3"), Ordering::Equal);
}

#[test]
fn bundles_over_the_limit_are_refused() {
    assert_eq!(MAX_BUNDLE_SIZE, 512 * 1024 * 1024);
    assert!(bundle_within_limit(&[]));
    assert!(bundle_within_limit(&[MAX_BUNDLE_SIZE - 10, 10]));
    assert!(!bundle_within_limit(&[MAX_BUNDLE_SIZE - 10, 11]));
}

#[test]
fn relative_paths_that_could_escape_are_refused() {
    assert_eq!(safe_relative_path("docs/a.txt", false).unwrap(), "docs/a.txt");
    assert_eq!(safe_relative_path("docs/./a.txt", false).unwrap(), "docs/./a.txt");
    assert_eq!(safe_relative_path("/etc/passwd", false).unwrap_err(), UnsafePath);
    assert_eq!(safe_relative_path("../a", false).unwrap_err(), UnsafePath);
    assert_eq!(safe_relative_path("a/../../b", false).unwrap_err(), UnsafePath);
    assert_eq!(safe_relative_path("./a", false).unwrap_err(), UnsafePath);
    assert_eq!(safe_relative_path("..\\x", false).unwrap(), "..\\x");
}

#[test]
fn windows_reads_backslashes_and_drives_in_paths() {
    assert_eq!(safe_relative_path("..\\x", true).unwrap_err(), UnsafePath);
    assert_eq!(safe_relative_path("a\\..\\..\\b", true).unwrap_err(), UnsafePath);
    assert_eq!(safe_relative_path("\\x", true).unwrap_err(), UnsafePath);
    assert_eq!(safe_relative_path("C:x", true).unwrap_err(), UnsafePath);
    assert_eq!(safe_relative_path(".\\x", true).unwrap_err(), UnsafePath);
    assert_eq!(safe_relative_path("docs\\a.txt", true).unwrap(), "docs\\a.txt");
    assert_eq!(safe_relative_path("ab:c", true).unwrap(), "ab:c");
    assert_eq!(relative_to_string("a\\b\\c.txt", true).unwrap(), "a/b/c.txt");
    assert_eq!(relative_to_string("a\\b", false).unwrap(), "a\\b");
}

#[test]
fn relative_paths_are_written_with_slashes() {
    assert_eq!(relative_to_string("a/b/c.txt", false).unwrap(), "a/b/c.txt");
    assert_eq!(relative_to_string("a//b/./c", false).unwrap(), "a/b/c");
    assert_eq!(relative_to_string("dir/", false).unwrap(), "dir");
    assert_eq!(relative_to_string("a/..", false).unwrap_err(), UnsafePath);
}

#[test]
fn a_received_file_takes_no_more_than_it_announced() {
    let mut budget = ReceiveBudget::new(10);
    assert_eq!(budget.check(4), Ok(()));
    assert!(!budget.consume(4));
    assert_eq!(budget.remaining, 6);
    assert_eq!(budget.check(7), Err(ChunkTooLong));
    assert!(budget.consume(6));
    assert_eq!(budget.remaining, 0);
}

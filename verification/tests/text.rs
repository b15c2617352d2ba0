use video_concat::decimal::decimal_text;
use video_concat::normalize::{fix_path, starts_with, Platform};

#[test]
fn decimal_of_zero_is_one_digit() {
    assert_eq!(decimal_text(0), "0");
}

#[test]
fn decimal_of_single_digits() {
    assert_eq!(decimal_text(7), "7");
    assert_eq!(decimal_text(9), "9");
}

#[test]
fn decimal_of_longer_numbers() {
    assert_eq!(decimal_text(10), "10");
    assert_eq!(decimal_text(101), "101");
    assert_eq!(decimal_text(12345), "12345");
    assert_eq!(decimal_text(9876543210), "9876543210");
}

#[test]
fn decimal_agrees_with_the_standard_library() {
    let mut n: usize = 0;
    while n < 2000 {
        assert_eq!(decimal_text(n), n.to_string());
        n += 1;
    }
    assert_eq!(decimal_text(usize::MAX), usize::MAX.to_string());
}

#[test]
fn starts_with_finds_a_prefix() {
    assert!(starts_with("encoded_chunk_0.mkv", "encoded"));
    assert!(starts_with("abc", "abc"));
    assert!(starts_with("abc", ""));
    assert!(starts_with("", ""));
}

#[test]
fn starts_with_rejects_what_is_no_prefix() {
    assert!(!starts_with("abc", "abd"));
    assert!(!starts_with("ab", "abc"));
    assert!(!starts_with("", "a"));
    assert!(!starts_with("xabc", "abc"));
}

#[test]
fn starts_with_counts_characters_not_bytes() {
    assert!(starts_with("żółw.mkv", "żół"));
    assert!(!starts_with("żółw.mkv", "zół"));
}

#[test]
fn extended_drive_path_loses_its_marker() {
    assert_eq!(fix_path(r"\\?\C:\encode\out.mkv", Platform::Windows), r"C:\encode\out.mkv");
}

#[test]
fn extended_share_path_becomes_a_share_path() {
    assert_eq!(
        fix_path(r"\\?\UNC\server\share\out.mkv", Platform::Windows),
        r"\\server\share\out.mkv"
    );
}

#[test]
fn share_marker_alone_is_replaced_by_a_backslash() {
    assert_eq!(fix_path(r"\\?\UNC", Platform::Windows), r"\");
    assert_eq!(fix_path(r"\\?\UNCLE\x", Platform::Windows), r"\LE\x");
}

#[test]
fn marker_alone_leaves_nothing() {
    assert_eq!(fix_path(r"\\?\", Platform::Windows), "");
}

#[test]
fn plain_paths_are_unchanged() {
    assert_eq!(fix_path(r"C:\encode\out.mkv", Platform::Windows), r"C:\encode\out.mkv");
    assert_eq!(fix_path(r"\\server\share\out.mkv", Platform::Windows), r"\\server\share\out.mkv");
    assert_eq!(fix_path("/tmp/encode/out.mkv", Platform::Windows), "/tmp/encode/out.mkv");
    assert_eq!(fix_path("", Platform::Windows), "");
    assert_eq!(fix_path(r"\\?", Platform::Windows), r"\\?");
    assert_eq!(fix_path(r"UNC\server", Platform::Windows), r"UNC\server");
}

#[test]
fn other_platforms_write_the_path_as_it_is() {
    assert_eq!(fix_path("/tmp/encode/out.mkv", Platform::Other), "/tmp/encode/out.mkv");
    assert_eq!(fix_path(r"\\?\C:\encode\out.mkv", Platform::Other), r"\\?\C:\encode\out.mkv");
    assert_eq!(fix_path(r"\\?\UNC\server\share", Platform::Other), r"\\?\UNC\server\share");
}

#[test]
fn fix_path_keeps_characters_beyond_ascii() {
    assert_eq!(fix_path(r"\\?\C:\wideo\żółw.mkv", Platform::Windows), r"C:\wideo\żółw.mkv");
    assert_eq!(fix_path(r"\\?\UNC\сервер\общий", Platform::Windows), r"\\сервер\общий");
}

#[test]
fn normalizing_twice_changes_nothing_more() {
    let paths = [
        r"\\?\C:\encode\out.mkv",
        r"\\?\UNC\server\share\out.mkv",
        r"C:\encode\out.mkv",
        "/tmp/encode/out.mkv",
        r"\\?\UNC",
        "",
    ];
    for path in paths {
        for platform in [Platform::Windows, Platform::Other] {
            let once = fix_path(path, platform);
            assert_eq!(fix_path(&once, platform), once);
        }
    }
}

#[test]
fn a_path_marked_twice_takes_two_passes() {
    let once = fix_path(r"\\?\\\?\C:\x", Platform::Windows);
    assert_eq!(once, r"\\?\C:\x");
    assert_eq!(fix_path(&once, Platform::Windows), r"C:\x");
    let share = fix_path(r"\\?\UNC\?\C:\x", Platform::Windows);
    assert_eq!(share, r"\\?\C:\x");
    assert_eq!(fix_path(&share, Platform::Windows), r"C:\x");
}

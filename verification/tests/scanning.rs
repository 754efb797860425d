//! The string scanning helpers the tables are built on: substring search,
//! separator search, and equality.

use libpng_src::strkit::{find_first, str_contains, str_eq};

#[test]
fn contains_finds_platform_markers() {
    assert!(str_contains("aarch64-apple-darwin", "apple"));
    assert!(str_contains("x86_64-pc-windows-msvc", "windows"));
    assert!(str_contains("armv7-linux-androideabi", "android"));
    assert!(!str_contains("aarch64-linux-android", "apple"));
    assert!(!str_contains("x86_64-unknown-linux-gnu", "windows"));
    assert!(!str_contains("aarch64-apple-darwin", "ios"));
}

#[test]
fn contains_edge_cases() {
    assert!(str_contains("anything", ""));
    assert!(str_contains("", ""));
    assert!(!str_contains("", "x"));
    assert!(str_contains("aaa", "aa"));
    assert!(!str_contains("ab", "abc"));
}

#[test]
fn find_first_returns_position_or_length() {
    assert_eq!(find_first("a-b", '-'), 1);
    assert_eq!(find_first("-ab", '-'), 0);
    assert_eq!(find_first("abc", '-'), 3);
    assert_eq!(find_first("", '-'), 0);
}

#[test]
fn string_equality() {
    assert!(str_eq("same", "same"));
    assert!(!str_eq("same", "other"));
    assert!(!str_eq("same", "sam"));
}

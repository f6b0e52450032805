use sdkman_mcp_server::paths::{join, path_file_name, starts_with_dir};
use sdkman_mcp_server::text::{bool_to_text, contains, i64_to_decimal, same_text, trim, u64_to_decimal};

#[test]
fn trim_matches_str_trim() {
    for s in ["", "  ", "a", " a b ", "\u{2028}x\u{205f}", "\u{200b}y"] {
        assert_eq!(trim(s), s.trim());
    }
}

#[test]
fn contains_matches_str_contains() {
    assert!(contains("Permission denied here", "Permission denied"));
    assert!(!contains("permission denied", "Permission denied"));
    assert!(contains("abc", ""));
    assert!(!contains("", "a"));
    assert!(contains("/tmp/../etc", ".."));
    assert!(!contains("/tmp/./etc", ".."));
}

#[test]
fn decimals() {
    assert_eq!(u64_to_decimal(0), "0");
    assert_eq!(u64_to_decimal(404), "404");
    assert_eq!(u64_to_decimal(u64::MAX), u64::MAX.to_string());
    assert_eq!(i64_to_decimal(-7), "-7");
    assert_eq!(i64_to_decimal(i64::MIN), i64::MIN.to_string());
    assert_eq!(bool_to_text(true), "true");
    assert_eq!(bool_to_text(false), "false");
}

#[test]
fn paths() {
    assert_eq!(join("", "a"), "a");
    assert_eq!(join("/h/", "a"), "/h/a");
    assert_eq!(join("/h", "a/b"), "/h/a/b");
    assert_eq!(path_file_name("/usr/bin/zsh").as_deref(), Some("zsh"));
    assert_eq!(path_file_name("a/b/.//"), Some("b".to_string()));
    assert_eq!(path_file_name("a/.."), None);
    assert!(starts_with_dir("/h/a", "/h"));
    assert!(starts_with_dir("/h/a", "/h/"));
    assert!(!starts_with_dir("/ha", "/h"));
    assert!(same_text("linux", "linux"));
    assert!(!same_text("linux", "linu"));
}

use autolinux::text::first_word;
use autolinux::text::lowercase;
use autolinux::text::parse_dec;
use autolinux::text::split_char;
use autolinux::text::str_contains;
use autolinux::text::str_ends_with;
use autolinux::text::str_eq;
use autolinux::text::trim_str;
use autolinux::text::u64_to_dec;
use autolinux::text::upper_char_exec;

#[test]
fn trim_removes_surrounding_whitespace() {
    assert_eq!(trim_str("  0\n"), "0");
    assert_eq!(trim_str("\t\r\n "), "");
    assert_eq!(trim_str("a b"), "a b");
    assert_eq!(trim_str(""), "");
}

#[test]
fn contains_finds_substrings() {
    assert!(str_contains("magisk v27", "magisk"));
    assert!(str_contains("abc", ""));
    assert!(!str_contains("kernel", "kernelsu"));
    assert!(str_contains("xxapatchxx", "apatch"));
    assert!(!str_contains("", "a"));
}

#[test]
fn equality_and_suffix() {
    assert!(str_eq("aarch64", "aarch64"));
    assert!(!str_eq("aarch64", "x86_64"));
    assert!(str_ends_with("rootfs.tar.xz", ".xz"));
    assert!(!str_ends_with("rootfs.tar.gz", ".xz"));
    assert!(!str_ends_with("z", ".xz"));
}

#[test]
fn first_word_skips_leading_whitespace() {
    assert_eq!(first_word("Alpine 3.22"), Some("Alpine"));
    assert_eq!(first_word("  Void Linux"), Some("Void"));
    assert_eq!(first_word("one"), Some("one"));
    assert_eq!(first_word("   "), None);
    assert_eq!(first_word(""), None);
}

#[test]
fn lowercase_maps_ascii() {
    assert_eq!(lowercase("Alpine"), "alpine");
    assert_eq!(lowercase("UBUNTU 24.04"), "ubuntu 24.04");
    assert_eq!(lowercase(""), "");
}

#[test]
fn uppercase_single_characters() {
    assert_eq!(upper_char_exec('a'), 'A');
    assert_eq!(upper_char_exec('z'), 'Z');
    assert_eq!(upper_char_exec('M'), 'M');
    assert_eq!(upper_char_exec('3'), '3');
    assert_eq!(upper_char_exec('-'), '-');
}

#[test]
fn decimal_formatting() {
    assert_eq!(u64_to_dec(0), "0");
    assert_eq!(u64_to_dec(7), "7");
    assert_eq!(u64_to_dec(404), "404");
    assert_eq!(u64_to_dec(2_097_152), "2097152");
    assert_eq!(u64_to_dec(u64::MAX), "18446744073709551615");
}

#[test]
fn decimal_parsing() {
    assert_eq!(parse_dec("443", 65535), Some(443));
    assert_eq!(parse_dec("+80", 65535), Some(80));
    assert_eq!(parse_dec("65535", 65535), Some(65535));
    assert_eq!(parse_dec("65536", 65535), None);
    assert_eq!(parse_dec("", 65535), None);
    assert_eq!(parse_dec("+", 65535), None);
    assert_eq!(parse_dec("12a", 65535), None);
    assert_eq!(parse_dec("1000", u32::MAX as u64), Some(1000));
    assert_eq!(parse_dec("99999999999999999999", u32::MAX as u64), None);
}

#[test]
fn split_keeps_empty_segments() {
    let parts = split_char("a:b::c", ':');
    assert_eq!(parts, vec!["a", "b", "", "c"]);
    assert_eq!(split_char("", ':'), vec![""]);
    assert_eq!(split_char("abc", ':'), vec!["abc"]);
    assert_eq!(split_char("x:", ':'), vec!["x", ""]);
}

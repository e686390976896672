//! Direct checks of the text utilities.

use nako::strutil::{get_extension, parse_ids, parse_u32, split_commas, str_equal, str_starts_with, u32_dec_bytes};

#[test]
fn parse_follows_the_standard_parser() {
    assert_eq!(parse_u32("0"), Some(0));
    assert_eq!(parse_u32("42"), Some(42));
    assert_eq!(parse_u32("+42"), Some(42));
    assert_eq!(parse_u32("4294967295"), Some(4294967295));
    assert_eq!(parse_u32("4294967296"), None);
    assert_eq!(parse_u32(""), None);
    assert_eq!(parse_u32("+"), None);
    assert_eq!(parse_u32("1x"), None);
    assert_eq!(parse_u32(" 1"), None);
    assert_eq!(parse_u32("-1"), None);
}

#[test]
fn splitting_keeps_empty_segments() {
    assert_eq!(split_commas(""), vec![""]);
    assert_eq!(split_commas("a,b"), vec!["a", "b"]);
    assert_eq!(split_commas(",a,,b,"), vec!["", "a", "", "b", ""]);
    assert_eq!(parse_ids("5,,6"), vec![5, 0, 6]);
}

#[test]
fn extensions_follow_the_last_dot() {
    assert_eq!(get_extension("a.png"), "png");
    assert_eq!(get_extension("archive.tar.gz"), "gz");
    assert_eq!(get_extension("noext"), "");
    assert_eq!(get_extension("ends."), "");
    assert_eq!(get_extension(""), "");
}

#[test]
fn text_helpers_compare_contents() {
    assert!(str_equal("同じ", "同じ"));
    assert!(!str_equal("a", "b"));
    assert!(str_starts_with("/admin/auth/login", "/admin/auth"));
    assert!(!str_starts_with("/admin", "/admin/auth"));
    assert_eq!(u32_dec_bytes(907), b"907".to_vec());
}

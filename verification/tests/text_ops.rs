use airdo::base64_util::decode;
use airdo::text::{
    eq_ignore_ascii_case, parse_u16, split_char, split_once_char, starts_with, text_eq, trim,
    u128_to_decimal,
};

#[test]
fn decode_accepts_standard_padded() {
    assert_eq!(decode("aGVsbG8=").unwrap(), b"hello".to_vec());
}

#[test]
fn decode_accepts_standard_without_padding() {
    assert_eq!(decode("aGVsbG8").unwrap(), b"hello".to_vec());
}

#[test]
fn decode_accepts_url_safe_alphabet() {
    // 0xfb 0xff encodes to "-_8=" in the URL-safe alphabet.
    assert_eq!(decode("-_8=").unwrap(), vec![0xfb, 0xff]);
    assert_eq!(decode("-_8").unwrap(), vec![0xfb, 0xff]);
}

#[test]
fn decode_rejects_non_base64() {
    assert!(decode("!!!!").is_err());
}

#[test]
fn eq_ignore_ascii_case_compares_letters_without_case() {
    assert!(eq_ignore_ascii_case("MiHoMo", "mihomo"));
    assert!(eq_ignore_ascii_case("clash", "CLASH"));
    assert!(!eq_ignore_ascii_case("clash", "clash2"));
    assert!(!eq_ignore_ascii_case("Ä", "ä"));
}

#[test]
fn starts_with_checks_prefix() {
    assert!(starts_with("https://example.com", "http"));
    assert!(!starts_with("ftp://example.com", "http"));
    assert!(!starts_with("htt", "http"));
}

#[test]
fn text_eq_compares_exactly() {
    assert!(text_eq("ss", "ss"));
    assert!(!text_eq("ss", "SS"));
}

#[test]
fn split_char_keeps_empty_pieces() {
    assert_eq!(split_char("a;b;;c", ';'), vec!["a", "b", "", "c"]);
    assert_eq!(split_char("", ';'), vec![""]);
    assert_eq!(split_char("a\n", '\n'), vec!["a", ""]);
}

#[test]
fn split_once_char_splits_at_first() {
    assert_eq!(
        split_once_char("obfs-local;obfs=http;obfs-host=x", ';'),
        Some(("obfs-local".to_string(), "obfs=http;obfs-host=x".to_string()))
    );
    assert_eq!(split_once_char("no-separator", ';'), None);
}

#[test]
fn trim_drops_unicode_white_space() {
    assert_eq!(trim("  Node A \t"), "Node A");
    assert_eq!(trim("\u{3000}节点\u{a0}"), "节点");
    assert_eq!(trim("   "), "");
}

#[test]
fn u128_to_decimal_formats() {
    assert_eq!(u128_to_decimal(0), "0");
    assert_eq!(u128_to_decimal(5000), "5000");
    assert_eq!(u128_to_decimal(u128::MAX), u128::MAX.to_string());
}

#[test]
fn parse_u16_matches_std() {
    for s in ["0", "443", "+8388", "65535", "65536", "", "+", "-1", "12a", " 1", "0008"] {
        assert_eq!(parse_u16(s), s.parse::<u16>().ok(), "input {:?}", s);
    }
}

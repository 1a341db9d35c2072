use shooty::text::{eq_ignore_ascii_case, has_char, parse_u16, parse_u32, same_text};

#[test]
fn parse_u16_reads_like_the_standard_parser() {
    for s in ["0", "7", "47474", "65535", "+80", "00042", "", "+", "-1", "65536", "12a", " 1", "99999999999"] {
        assert_eq!(parse_u16(s), s.parse::<u16>().ok(), "input {s:?}");
    }
    assert_eq!(parse_u16("65535"), Some(65535));
    assert_eq!(parse_u16("65536"), None);
    assert_eq!(parse_u16("+"), None);
}

#[test]
fn text_comparisons() {
    assert!(same_text("host", "host"));
    assert!(!same_text("host", "hos"));
    assert!(!same_text("Host", "host"));
    assert!(eq_ignore_ascii_case("Host", "hOST"));
    assert!(eq_ignore_ascii_case("", ""));
    assert!(!eq_ignore_ascii_case("town", "towns"));
    assert!(!eq_ignore_ascii_case("town", "tawn"));
    assert!(has_char("a:b", ':'));
    assert!(!has_char("ab", ':'));
}

#[test]
fn parse_u32_reads_like_the_standard_parser() {
    for s in ["0", "450", "4294967295", "4294967296", "+12", "", "-0", "1_000"] {
        assert_eq!(parse_u32(s), s.parse::<u32>().ok(), "input {s:?}");
    }
}

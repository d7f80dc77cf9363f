use kidstime::text::{
    ascii_upper, contains_char, dec_string, hex_string, parse_unsigned, replace_all, starts_with,
    str_eq, trim, trim_end_char,
};

#[test]
fn trimming_matches_str_trim() {
    for s in ["", "  a b  ", "\t\n x\r\n", "\u{3000}y\u{a0}", "plain"] {
        assert_eq!(trim(s), s.trim());
    }
    assert_eq!(trim_end_char("a///", '/'), "a");
    assert_eq!(trim_end_char("///", '/'), "");
    assert_eq!(trim_end_char("a/b", '/'), "a/b");
}

#[test]
fn character_and_prefix_tests() {
    assert!(contains_char("a.b", '.'));
    assert!(!contains_char("ab", '.'));
    assert!(starts_with("Bearer x", "Bearer "));
    assert!(!starts_with("Bear", "Bearer "));
    assert!(str_eq("POST", "POST"));
    assert!(!str_eq("POST", "GET"));
}

#[test]
fn replacement_matches_str_replace() {
    for (s, p, r) in [
        ("http://a/http://b", "http://", "ws://"),
        ("aaa", "aa", "b"),
        ("none", "xyz", "q"),
        ("", "a", "b"),
    ] {
        assert_eq!(replace_all(s, p, r), s.replace(p, r));
    }
}

#[test]
fn numbers_render_and_parse() {
    assert_eq!(dec_string(0), "0");
    assert_eq!(dec_string(8080), "8080");
    assert_eq!(dec_string(u64::MAX), u64::MAX.to_string());
    for s in ["0", "42", "+7", "007", "4294967295", "4294967296", "", "+", "-1", " 1", "1a"] {
        assert_eq!(parse_unsigned(s, u32::MAX as u64), s.parse::<u32>().ok().map(|v| v as u64));
        assert_eq!(parse_unsigned(s, u16::MAX as u64), s.parse::<u16>().ok().map(|v| v as u64));
    }
}

#[test]
fn hex_and_upper_case() {
    assert_eq!(hex_string(&[0x00, 0x0f, 0xa0, 0xff]), "000fa0ff");
    assert_eq!(ascii_upper("a1b2-z"), "A1B2-Z");
}

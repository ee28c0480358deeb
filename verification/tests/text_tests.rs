use neurobox_api::text::{blank, parse_u16, starts_with, str_less, strip_prefix};

#[test]
fn parse_u16_accepts_decimal_ports() {
    assert_eq!(parse_u16("3000"), Some(3000));
    assert_eq!(parse_u16("0"), Some(0));
    assert_eq!(parse_u16("65535"), Some(65535));
    assert_eq!(parse_u16("+80"), Some(80));
    assert_eq!(parse_u16("0080"), Some(80));
}

#[test]
fn parse_u16_rejects_what_std_rejects() {
    for bad in ["", "+", "-1", "-0", "65536", "99999999999", "12a", " 80", "80 ", "1_000"] {
        assert_eq!(parse_u16(bad), None, "{bad:?}");
        assert_eq!(parse_u16(bad), bad.parse::<u16>().ok(), "{bad:?}");
    }
    for good in ["1", "+65535", "443"] {
        assert_eq!(parse_u16(good), good.parse::<u16>().ok());
    }
}

#[test]
fn blank_is_trim_empty() {
    for s in ["", " ", "\t\n", "\u{3000}", "\u{a0} \u{2028}"] {
        assert!(blank(s));
        assert_eq!(blank(s), s.trim().is_empty());
    }
    for s in ["x", " 1 ", "\u{200b}"] {
        assert_eq!(blank(s), s.trim().is_empty());
    }
}

#[test]
fn prefix_helpers() {
    assert!(starts_with("spotify:abc", "spotify:"));
    assert!(!starts_with("spot", "spotify:"));
    assert_eq!(strip_prefix("spotify:abc", "spotify:"), Some("abc"));
    assert_eq!(strip_prefix("xspotify:abc", "spotify:"), None);
    assert_eq!(strip_prefix("héllo", "hé"), Some("llo"));
}

#[test]
fn str_less_is_string_order() {
    let words = ["", "a", "ab", "b", "B", "é", "z", "zz", "\u{10000}"];
    for a in words {
        for b in words {
            assert_eq!(str_less(a, b), a < b, "{a:?} {b:?}");
        }
    }
}

use evapanel::text::{
    ends_with, parse_u8, push_decimal, push_joined, push_signed_decimal, starts_with, str_eq,
};

#[test]
fn str_eq_compares_characters() {
    assert!(str_eq("", ""));
    assert!(str_eq("abc", "abc"));
    assert!(!str_eq("abc", "abd"));
    assert!(!str_eq("abc", "ab"));
    assert!(!str_eq("ab", "abc"));
    assert!(!str_eq("", "a"));
    assert!(str_eq("\u{e9}t\u{e9}", "\u{e9}t\u{e9}"));
    assert!(!str_eq("\u{e9}", "e"));
}

#[test]
fn starts_with_agrees_with_std() {
    let texts = ["", "a", "http://eva/ui/", "http://eva/ui/index.html", "https://x", "\u{e9}a"];
    for s in texts {
        for p in texts {
            assert_eq!(starts_with(s, p), s.starts_with(p), "{:?} {:?}", s, p);
        }
    }
}

#[test]
fn ends_with_agrees_with_std() {
    let texts = ["", ".sock", "a.sock", "sock", "a.socket", ".ipc", "x.ipc", "\u{e9}.ipc", "c"];
    for s in texts {
        for p in texts {
            assert_eq!(ends_with(s, p), s.ends_with(p), "{:?} {:?}", s, p);
        }
    }
}

#[test]
fn push_decimal_exact() {
    let cases: [(u64, &str); 8] = [
        (0, "0"),
        (5, "5"),
        (9, "9"),
        (10, "10"),
        (30, "30"),
        (65535, "65535"),
        (1234567890, "1234567890"),
        (u64::MAX, "18446744073709551615"),
    ];
    for (n, text) in cases {
        let mut out = String::from("n=");
        push_decimal(&mut out, n);
        assert_eq!(out, format!("n={}", text));
    }
}

#[test]
fn push_signed_decimal_exact() {
    let cases: [(i32, &str); 7] = [
        (0, "0"),
        (1, "1"),
        (-1, "-1"),
        (-15, "-15"),
        (255, "255"),
        (i32::MAX, "2147483647"),
        (i32::MIN, "-2147483648"),
    ];
    for (n, text) in cases {
        let mut out = String::new();
        push_signed_decimal(&mut out, n);
        assert_eq!(out, text);
    }
}

#[test]
fn parse_u8_reads_bytes() {
    assert_eq!(parse_u8("0"), Some(0));
    assert_eq!(parse_u8("2"), Some(2));
    assert_eq!(parse_u8("255"), Some(255));
    assert_eq!(parse_u8("007"), Some(7));
    assert_eq!(parse_u8("+5"), Some(5));
    assert_eq!(parse_u8("0000000000000000000255"), Some(255));
}

#[test]
fn parse_u8_refuses_the_rest() {
    for text in ["", "+", "-1", "256", "1000", "99999999999999999999", "1.0", " 1", "1 ", "a", "\u{ff12}"] {
        assert_eq!(parse_u8(text), None, "{:?}", text);
    }
}

#[test]
fn parse_u8_agrees_with_std() {
    let texts = ["", "+", "++1", "+0", "-0", "12", "25a", "300", "255", "0x1", "1e1", "+255", "+256"];
    for text in texts {
        assert_eq!(parse_u8(text), text.parse::<u8>().ok(), "{:?}", text);
    }
    for n in 0u16..=300 {
        let text = n.to_string();
        assert_eq!(parse_u8(&text), text.parse::<u8>().ok());
    }
}

#[test]
fn decimal_of_a_byte_is_parsed_back() {
    for n in 0u8..=255 {
        let mut text = String::new();
        push_decimal(&mut text, n as u64);
        assert_eq!(parse_u8(&text), Some(n));
    }
}

#[test]
fn push_joined_puts_separator_between() {
    let mut out = String::from(">");
    push_joined(&mut out, &vec![], "\n");
    assert_eq!(out, ">");
    push_joined(&mut out, &vec!["a".to_owned()], "\n");
    assert_eq!(out, ">a");
    let mut out = String::new();
    push_joined(&mut out, &vec!["a".to_owned(), "".to_owned(), "c".to_owned()], ", ");
    assert_eq!(out, "a, , c");
}

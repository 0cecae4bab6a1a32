use http_metrics::text::{char_is_space, chars_of, join, decimal, format_millis, is_blank};

#[test]
fn blank_texts_are_recognized() {
    assert!(is_blank(""));
    assert!(is_blank("   "));
    assert!(is_blank(" \t\r\n"));
    assert!(is_blank("\u{00A0}\u{2003}\u{3000}"));
    assert!(!is_blank(" a "));
    assert!(!is_blank("\u{200B}"));
    assert!(!is_blank("0"));
}

#[test]
fn blank_agrees_with_trimming() {
    for s in ["", " ", "x", " x", "x ", "\u{0085}", "\u{1680}\u{2028}\u{2029}", "\u{202F}\u{205F}", "\u{180E}"] {
        assert_eq!(is_blank(s), s.trim().is_empty(), "{:?}", s);
    }
}

#[test]
fn whitespace_agrees_with_std_on_every_char() {
    let mut n: u32 = 0;
    while n <= 0x10FFFF {
        if let Some(c) = char::from_u32(n) {
            assert_eq!(char_is_space(c), c.is_whitespace(), "U+{:04X}", n);
        }
        n += 1;
    }
}

#[test]
fn chars_of_keeps_every_char() {
    assert_eq!(chars_of("a\u{00E9}\u{1F600}z"), vec!['a', '\u{00E9}', '\u{1F600}', 'z']);
    assert_eq!(chars_of(""), Vec::<char>::new());
}

#[test]
fn decimal_writes_numbers() {
    assert_eq!(decimal(0), "0");
    assert_eq!(decimal(7), "7");
    assert_eq!(decimal(10), "10");
    assert_eq!(decimal(404), "404");
    assert_eq!(decimal(1234567890), "1234567890");
    assert_eq!(decimal(u64::MAX), "18446744073709551615");
}

#[test]
fn millis_have_two_fractional_digits() {
    assert_eq!(format_millis(0), "0.00ms");
    assert_eq!(format_millis(4), "0.00ms");
    assert_eq!(format_millis(5), "0.01ms");
    assert_eq!(format_millis(10), "0.01ms");
    assert_eq!(format_millis(1000), "1.00ms");
    assert_eq!(format_millis(1234567), "1234.57ms");
    assert_eq!(format_millis(12_050), "12.05ms");
    assert_eq!(format_millis(999_995), "1000.00ms");
    assert_eq!(format_millis(999_994), "999.99ms");
}

#[test]
fn millis_do_not_overflow_at_the_top() {
    assert_eq!(format_millis(u64::MAX), "18446744073709551.62ms");
}

#[test]
fn join_puts_two_texts_together() {
    assert_eq!(join("http://", "127.0.0.1"), "http://127.0.0.1");
    assert_eq!(join("", ""), "");
}

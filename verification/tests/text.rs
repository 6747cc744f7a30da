use serve::text::{char_is_whitespace, decimal_string, str_eq, to_chars};

#[test]
fn decimal_string_writes_numbers_without_padding() {
    assert_eq!(decimal_string(0), "0");
    assert_eq!(decimal_string(7), "7");
    assert_eq!(decimal_string(10), "10");
    assert_eq!(decimal_string(505), "505");
    assert_eq!(decimal_string(65535), "65535");
    assert_eq!(decimal_string(1234567890), "1234567890");
}

#[test]
fn decimal_string_agrees_with_the_standard_rendering() {
    for n in [0usize, 1, 9, 10, 99, 100, 101, 4096, 999_999, usize::MAX] {
        assert_eq!(decimal_string(n), n.to_string());
    }
}

#[test]
fn str_eq_compares_characters() {
    assert!(str_eq("", ""));
    assert!(str_eq("GET", "GET"));
    assert!(!str_eq("GET", "get"));
    assert!(!str_eq("GET", "GET "));
    assert!(str_eq("gr\u{fc}n", "gr\u{fc}n"));
    assert!(!str_eq("gr\u{fc}n", "grun"));
}

#[test]
fn to_chars_keeps_every_character() {
    assert_eq!(to_chars("a\u{e9}\u{1f600}"), vec!['a', '\u{e9}', '\u{1f600}']);
    assert_eq!(to_chars(""), Vec::<char>::new());
}

#[test]
fn white_space_is_what_the_standard_library_calls_white_space() {
    let mut n: u32 = 0;
    while n <= 0x3100 {
        if let Some(c) = char::from_u32(n) {
            assert_eq!(char_is_whitespace(c), c.is_whitespace(), "U+{:04X}", n);
        }
        n += 1;
    }
}

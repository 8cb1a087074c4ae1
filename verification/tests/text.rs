use factorio_up::text::{
    chars_of, class_has, append, ends_with, is_whitespace, join_path, scan, scan_back,
    to_decimal, CharClass,
};

#[test]
fn whitespace_is_what_std_calls_whitespace() {
    for n in 0..=0x10ffffu32 {
        if let Some(c) = char::from_u32(n) {
            assert_eq!(is_whitespace(c), c.is_whitespace(), "U+{:04X}", n);
        }
    }
}

#[test]
fn classes_of_characters() {
    assert!(class_has(CharClass::Is('/'), '/'));
    assert!(!class_has(CharClass::Is('/'), '?'));
    assert!(class_has(CharClass::Whitespace, '\n'));
    assert!(!class_has(CharClass::Whitespace, 'n'));
}

#[test]
fn chars_are_those_of_the_text() {
    assert_eq!(chars_of(""), Vec::<char>::new());
    assert_eq!(chars_of("a\u{e9}\u{1f600}"), vec!['a', '\u{e9}', '\u{1f600}']);
}

#[test]
fn decimal_of_numbers() {
    assert_eq!(to_decimal(0), "0");
    assert_eq!(to_decimal(7), "7");
    assert_eq!(to_decimal(10), "10");
    assert_eq!(to_decimal(1_700_000_000_123), "1700000000123");
    assert_eq!(to_decimal(u128::MAX), u128::MAX.to_string());
    for n in [9u128, 99, 100, 101, 909, 1000, 65_535, 4_294_967_296] {
        assert_eq!(to_decimal(n), n.to_string());
    }
}

#[test]
fn append_puts_one_text_after_another() {
    assert_eq!(append("", ""), "");
    assert_eq!(append("ab", "cd"), "abcd");
}

#[test]
fn join_path_follows_the_path_rules() {
    assert_eq!(join_path("/tmp", "factorio"), "/tmp/factorio");
    assert_eq!(join_path("/tmp/", "factorio"), "/tmp/factorio");
    assert_eq!(join_path("", "factorio"), "factorio");
    assert_eq!(join_path("/tmp", "/abs"), "/abs");
    assert_eq!(join_path("/tmp", ""), "/tmp/");
    assert_eq!(join_path("rel", "bin/x64/factorio"), "rel/bin/x64/factorio");
    for (base, rel) in [("/tmp", "a"), ("/tmp/", "a"), ("", "a"), ("/", "a"), ("x", "/a"), ("x", "")] {
        let expected = std::path::Path::new(base).join(rel);
        assert_eq!(join_path(base, rel), expected.to_str().unwrap());
    }
}

#[test]
fn scan_stops_at_the_other_kind() {
    let text = chars_of("  ab  cd");
    assert_eq!(scan(&text, 0, text.len(), CharClass::Whitespace, true), 2);
    assert_eq!(scan(&text, 2, text.len(), CharClass::Whitespace, false), 4);
    assert_eq!(scan(&text, 2, 3, CharClass::Whitespace, false), 3);
    assert_eq!(scan(&text, 6, text.len(), CharClass::Whitespace, false), 8);
    assert_eq!(scan(&text, 0, text.len(), CharClass::Is('c'), false), 6);
    assert_eq!(scan(&text, 0, 0, CharClass::Is('c'), false), 0);
}

#[test]
fn scan_back_stops_at_the_other_kind() {
    let text = chars_of("a/b/cd");
    assert_eq!(scan_back(&text, 0, text.len(), CharClass::Is('/'), false), 4);
    assert_eq!(scan_back(&text, 0, 3, CharClass::Is('/'), false), 2);
    assert_eq!(scan_back(&text, 0, 1, CharClass::Is('/'), false), 0);
    assert_eq!(scan_back(&text, 0, 4, CharClass::Is('/'), true), 3);
}

#[test]
fn ends_with_looks_at_the_part_only() {
    let text = chars_of("abc  foo/bar.tar.xz\n");
    let name = chars_of("bar.tar.xz");
    assert!(ends_with(&text, 0, text.len() - 1, &name));
    assert!(!ends_with(&text, 0, text.len(), &name));
    assert!(!ends_with(&text, 0, 5, &name));
    assert!(ends_with(&text, 9, 19, &name));
    assert!(!ends_with(&text, 10, 19, &name));
    assert!(ends_with(&text, 3, 3, &Vec::new()));
}

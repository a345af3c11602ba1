use sw::text::{
    chars_of, contains_text, filled_lines, is_blank, is_space, same_text, str_less, trimmed, words,
};
use sw::timestamp::Timestamp;

#[test]
fn strings_are_ordered_by_their_bytes() {
    let samples = ["", "a", "ab", "b", "B", "é", "z", "zz", "日本", "a\u{10000}", "a\u{ffff}"];
    for a in samples {
        for b in samples {
            assert_eq!(str_less(a, b), a < b, "for {:?} and {:?}", a, b);
        }
    }
}

#[test]
fn white_space_is_what_unicode_says() {
    for n in 0..0x11000u32 {
        if let Some(c) = char::from_u32(n) {
            assert_eq!(is_space(c), c.is_whitespace(), "for U+{:04X}", n);
        }
    }
}

#[test]
fn blank_trim_words_and_lines() {
    let samples = ["", " ", "a", " a b ", "\t\n x\u{3000}y \r\n", "cursor --wait  -n", "\u{a0}", "a\nb\r\nc\r", "\n\n", "one\n\n two \n"];
    for s in samples {
        assert_eq!(is_blank(s), s.trim().is_empty(), "blank {:?}", s);
        assert_eq!(trimmed(s), s.trim(), "trim {:?}", s);
        let expected: Vec<&str> = s.split_whitespace().collect();
        assert_eq!(words(s), expected, "words {:?}", s);
        let expected: Vec<&str> = s.lines().filter(|l| !l.trim().is_empty()).collect();
        assert_eq!(filled_lines(s), expected, "lines {:?}", s);
        assert_eq!(chars_of(s), s.chars().collect::<Vec<char>>());
    }
    assert_eq!(words("code --wait"), vec!["code", "--wait"]);
    assert_eq!(trimmed("  x y "), "x y");
}

#[test]
fn parts_are_found_like_contains() {
    let samples = ["", "a", "ab", "abc", "bc", "xabcx", "ééé", "é", "✅ ok", "✅", "❌"];
    for whole in samples {
        for part in samples {
            assert_eq!(contains_text(whole, part), whole.contains(part), "{:?} in {:?}", part, whole);
        }
    }
    assert!(same_text("abc", "abc"));
    assert!(!same_text("abc", "abd"));
    assert!(!same_text("abc", "ab"));
}

#[test]
fn timestamps_parse_print_and_compare() {
    let t = Timestamp::parse_rfc3339("2024-01-15T10:30:00Z").unwrap();
    assert_eq!(t, Timestamp { secs: 1_705_314_600, nanos: 0 });
    assert_eq!(
        Timestamp::parse_rfc3339("2024-01-15T12:30:00.5+02:00"),
        Some(Timestamp { secs: 1_705_314_600, nanos: 500_000_000 })
    );
    assert_eq!(Timestamp::parse_rfc3339("2024-01-15"), None);
    assert_eq!(Timestamp::parse_rfc3339(""), None);

    assert_eq!(t.format_minute(), Some("2024-01-15 10:30".to_string()));
    assert_eq!(t.format_short(), Some("01/15 10:30".to_string()));
    assert_eq!(Timestamp::from_secs(0).format_minute(), Some("1970-01-01 00:00".to_string()));
    assert_eq!(Timestamp::from_secs(-1).format_minute(), Some("1969-12-31 23:59".to_string()));
    assert_eq!(Timestamp { secs: i64::MAX, nanos: 0 }.format_minute(), None);
    assert_eq!(Timestamp { secs: 0, nanos: u32::MAX }.format_short(), None);

    let later = Timestamp { secs: 10, nanos: 1 };
    let earlier = Timestamp { secs: 10, nanos: 0 };
    assert!(later.is_later_than(&earlier));
    assert!(!earlier.is_later_than(&later));
    assert!(!later.is_later_than(&later));
    assert!(Timestamp { secs: 11, nanos: 0 }.is_later_than(&later));
    assert!(!Timestamp { secs: -1, nanos: 999 }.is_later_than(&earlier));
}

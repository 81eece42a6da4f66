use gallery_cleaner::config::parse_u64;
use gallery_cleaner::text::contains_bytes;

#[test]
fn parses_plain_decimal() {
    assert_eq!(parse_u64(b"123"), Some(123));
    assert_eq!(parse_u64(b"0"), Some(0));
    assert_eq!(parse_u64(b"007"), Some(7));
    assert_eq!(parse_u64(b"981234567890123"), Some(981_234_567_890_123));
}

#[test]
fn parses_u64_max_but_not_beyond() {
    assert_eq!(parse_u64(b"18446744073709551615"), Some(u64::MAX));
    assert_eq!(parse_u64(b"18446744073709551616"), None);
    assert_eq!(parse_u64(b"99999999999999999999999"), None);
}

#[test]
fn rejects_empty_and_non_digits() {
    assert_eq!(parse_u64(b""), None);
    assert_eq!(parse_u64(b"12a"), None);
    assert_eq!(parse_u64(b"a12"), None);
    assert_eq!(parse_u64(b"+5"), None);
    assert_eq!(parse_u64(b"-5"), None);
    assert_eq!(parse_u64(b" 5"), None);
    assert_eq!(parse_u64(b"5 "), None);
}

#[test]
fn substring_search_agrees_with_str_contains() {
    let cases: &[(&str, &str)] = &[
        ("hello world", "world"),
        ("hello world", "o w"),
        ("hello world", ""),
        ("hello world", "worlds"),
        ("", ""),
        ("", "x"),
        ("aaa", "aaaa"),
        ("abcabcabd", "abcabd"),
        ("http", "http"),
        ("htt", "http"),
    ];
    for (hay, needle) in cases {
        let h = hay.as_bytes().to_vec();
        let n = needle.as_bytes().to_vec();
        assert_eq!(contains_bytes(&h, &n), hay.contains(needle), "{hay:?} / {needle:?}");
    }
}

use lunchbot::text::{chars_of, contains_str, decimal_string, join_lines, str_byte_len, trim_str};
use lunchbot::is_transient;

#[test]
fn trim_removes_unicode_white_space_at_both_ends() {
    assert_eq!(trim_str("  \t*Dagens*\u{a0}\n"), "*Dagens*");
    assert_eq!(trim_str("\u{3000}midt i\u{2003}teksten\u{2029}"), "midt i\u{2003}teksten");
    assert_eq!(trim_str(" \n\t "), "");
    assert_eq!(trim_str(""), "");
    assert_eq!(trim_str("ingen"), "ingen");
}

#[test]
fn trim_agrees_with_std() {
    for s in ["  a b  ", "\u{85}x\u{1680}", "\u{200b}x", "x\u{202f}", "\r\n", "\u{feff}y"] {
        assert_eq!(trim_str(s), s.trim());
    }
}

#[test]
fn contains_finds_substrings() {
    assert!(contains_str("Mandag og Tirsdag", "Tirsdag"));
    assert!(contains_str("abc", ""));
    assert!(!contains_str("Tirsda", "Tirsdag"));
    assert!(!contains_str("", "a"));
    assert!(contains_str("blåbær", "åb"));
}

#[test]
fn join_puts_separator_between_lines() {
    let lines = vec!["*Dagens*".to_string(), "\u{2022} Fisk".to_string()];
    assert_eq!(join_lines(&lines, "\n"), "*Dagens*\n\u{2022} Fisk");
    assert_eq!(join_lines(&vec![], "\n"), "");
    assert_eq!(join_lines(&vec!["a".to_string()], ","), "a");
}

#[test]
fn decimal_numerals() {
    assert_eq!(decimal_string(0), "0");
    assert_eq!(decimal_string(429), "429");
    assert_eq!(decimal_string(1_000_000), "1000000");
    assert_eq!(decimal_string(u64::MAX), u64::MAX.to_string());
}

#[test]
fn byte_length_counts_utf8_bytes() {
    assert_eq!(str_byte_len("abc"), 3);
    assert_eq!(str_byte_len("\u{e6}\u{f8}\u{e5}"), 6);
    assert_eq!(str_byte_len("\u{2014}"), 3);
    assert_eq!(chars_of("\u{e6}x"), vec!['\u{e6}', 'x']);
}

#[test]
fn transient_statuses() {
    assert!(is_transient(429));
    assert!(is_transient(500));
    assert!(is_transient(503));
    assert!(is_transient(599));
    assert!(!is_transient(600));
    assert!(!is_transient(404));
    assert!(!is_transient(200));
    assert!(!is_transient(499));
}

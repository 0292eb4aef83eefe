use stream_alerts::text::{
    contains_text, decimal, join_text, join_words, matches_at, replace_all, same_text,
    signed_decimal, split_whitespace,
};

#[test]
fn replace_all_replaces_each_occurrence() {
    assert_eq!(replace_all("a-b-c", "-", "+"), "a+b+c");
    assert_eq!(replace_all("aaa", "aa", "b"), "ba");
    assert_eq!(replace_all("abc", "", "x"), "abc");
    assert_eq!(replace_all("ab", "abc", "x"), "ab");
    assert_eq!(replace_all("", "a", "x"), "");
    assert_eq!(replace_all("héllo wörld", "ö", "oe"), "héllo woerld");
}

#[test]
fn replace_all_agrees_with_std_on_non_empty_patterns() {
    let texts = ["{channel} live at {url}", "{{url}}", "xx{url", "{url}{url}", "ababab"];
    let patterns = ["{url}", "{channel}", "ab", "aba", "x"];
    for t in texts {
        for p in patterns {
            assert_eq!(replace_all(t, p, "<>"), t.replace(p, "<>"));
        }
    }
}

#[test]
fn matches_at_checks_one_position() {
    assert!(matches_at("hello", "ll", 2));
    assert!(!matches_at("hello", "ll", 3));
    assert!(!matches_at("hello", "lo!", 3));
    assert!(matches_at("hello", "", 5));
    assert!(!matches_at("hello", "", 6));
    assert!(!matches_at("hello", "o", 9));
}

#[test]
fn join_text_and_same_text() {
    assert_eq!(join_text("ab", "cd"), "abcd");
    assert!(same_text("abc", "abc"));
    assert!(!same_text("abc", "abd"));
    assert!(!same_text("abc", "ab"));
}

#[test]
fn decimal_writes_numbers_without_leading_zeros() {
    assert_eq!(decimal(0), "0");
    assert_eq!(decimal(7), "7");
    assert_eq!(decimal(10), "10");
    assert_eq!(decimal(1234567890), "1234567890");
    assert_eq!(decimal(u64::MAX), "18446744073709551615");
    assert_eq!(signed_decimal(0), "0");
    assert_eq!(signed_decimal(-1), "-1");
    assert_eq!(signed_decimal(409), "409");
    assert_eq!(signed_decimal(i64::MAX), "9223372036854775807");
    assert_eq!(signed_decimal(i64::MIN), "-9223372036854775808");
}

#[test]
fn join_words_puts_single_spaces_between_words() {
    let words: Vec<String> = ["a", "bb", "", "c"].iter().map(|w| w.to_string()).collect();
    assert_eq!(join_words(&words, 0), "a bb  c");
    assert_eq!(join_words(&words, 1), "bb  c");
    assert_eq!(join_words(&words, 3), "c");
    assert_eq!(join_words(&words, 4), "");
    assert_eq!(join_words(&words, 9), "");
    assert_eq!(join_words(&Vec::new(), 0), "");
}

#[test]
fn contains_text_finds_a_pattern_anywhere() {
    assert!(contains_text("UNIQUE constraint failed: x", "UNIQUE constraint failed"));
    assert!(contains_text("error: UNIQUE constraint failed", "UNIQUE constraint failed"));
    assert!(!contains_text("UNIQUE constraint", "UNIQUE constraint failed"));
    assert!(contains_text("abc", ""));
    assert!(contains_text("", ""));
    assert!(!contains_text("", "a"));
    assert!(contains_text("abc", "c"));
}

#[test]
fn split_whitespace_cuts_at_any_run_of_white_space() {
    assert_eq!(split_whitespace("!addstream foo bar"), vec!["!addstream", "foo", "bar"]);
    assert_eq!(split_whitespace("  a \t\n b  "), vec!["a", "b"]);
    assert_eq!(split_whitespace("one"), vec!["one"]);
    assert!(split_whitespace("").is_empty());
    assert!(split_whitespace(" \n\t ").is_empty());
}

#[test]
fn split_whitespace_agrees_with_std() {
    let texts = [
        "a b",
        " lead",
        "trail ",
        "tab\tsep\nline\r\nend",
        "no-break\u{00A0}space",
        "wide\u{3000}space \u{2003} em",
        "zero\u{200B}width",
        "h\u{00E9}llo w\u{00F6}rld",
        "",
        "   ",
    ];
    for text in texts {
        let expected: Vec<String> = text.split_whitespace().map(|w| w.to_string()).collect();
        assert_eq!(split_whitespace(text), expected, "{:?}", text);
    }
}

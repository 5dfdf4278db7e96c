use netctl::text::{
    chars_of, concat2, concat3, contains_char, contains_str, contains_string, find_key_value,
    i32_to_string, lines, parse_number, split_once_char, starts_with, str_eq,
    strip_prefix_repeated, trim, u64_to_string,
};

#[test]
fn strings_compare_by_content() {
    assert!(str_eq("", ""));
    assert!(str_eq("lo", "lo"));
    assert!(!str_eq("lo", "lo0"));
    assert!(!str_eq("lo0", "lo"));
    assert!(!str_eq("la", "lo"));
    assert!(str_eq("žluť", "žluť"));
}

#[test]
fn prefixes_and_substrings() {
    assert!(starts_with("wlan0", "wlan"));
    assert!(starts_with("wlan", "wlan"));
    assert!(starts_with("x", ""));
    assert!(!starts_with("wla", "wlan"));
    assert!(!starts_with("xwlan", "wlan"));
    assert!(contains_str("iwlwifi", "wifi"));
    assert!(contains_str("iwlwifi", "iwl"));
    assert!(contains_str("abc", ""));
    assert!(contains_str("", ""));
    assert!(!contains_str("", "a"));
    assert!(!contains_str("e1000e", "wl"));
    assert!(contains_char("fe80::1", ':'));
    assert!(!contains_char("10.0.0.1", ':'));
    assert!(contains_string(&vec!["UP".to_string()], "UP"));
    assert!(!contains_string(&vec!["UPS".to_string()], "UP"));
}

#[test]
fn characters_and_joins() {
    assert_eq!(chars_of("añb"), vec!['a', 'ñ', 'b']);
    assert_eq!(concat2("ab", "cd"), "abcd");
    assert_eq!(concat3("a", "", "c"), "ac");
}

#[test]
fn numbers_are_written_in_decimal() {
    assert_eq!(u64_to_string(0), "0");
    assert_eq!(u64_to_string(9), "9");
    assert_eq!(u64_to_string(10), "10");
    assert_eq!(u64_to_string(65535), "65535");
    assert_eq!(u64_to_string(u64::MAX), "18446744073709551615");
    assert_eq!(i32_to_string(0), "0");
    assert_eq!(i32_to_string(-1), "-1");
    assert_eq!(i32_to_string(127), "127");
    assert_eq!(i32_to_string(i32::MIN), "-2147483648");
    assert_eq!(i32_to_string(i32::MAX), "2147483647");
}

#[test]
fn numbers_are_read_as_the_standard_library_reads_them() {
    let samples = [
        "0", "7", "255", "256", "+5", "+", "", "-1", "007", "0000000000255", "1 ", " 1", "1_0",
        "٣", "4294967295", "4294967296", "99999999999999999999", "+0", "++1", "1+", "0x10",
    ];
    for s in samples {
        assert_eq!(parse_number(s, 255), s.parse::<u8>().ok().map(u32::from), "u8 {:?}", s);
        assert_eq!(parse_number(s, u32::MAX), s.parse::<u32>().ok(), "u32 {:?}", s);
    }
}

#[test]
fn splitting_at_the_first_separator() {
    assert_eq!(split_once_char("a/b/c", '/'), Some(("a", "b/c")));
    assert_eq!(split_once_char("/b", '/'), Some(("", "b")));
    assert_eq!(split_once_char("a/", '/'), Some(("a", "")));
    assert_eq!(split_once_char("abc", '/'), None);
    assert_eq!(split_once_char("é/ü", '/'), Some(("é", "ü")));
}

#[test]
fn trimming_follows_the_standard_library() {
    let samples = [
        "", " ", "a", " a ", "\t a\r\n", "a b", "\u{a0}x\u{3000}", "\u{2028}\u{2029}", "\u{85}y",
        "\u{1680}z\u{205f}", "\u{200b}w", "  x  y  ",
    ];
    for s in samples {
        assert_eq!(trim(s), s.trim(), "{:?}", s);
    }
}

#[test]
fn lines_follow_the_standard_library() {
    let samples = [
        "", "a", "a\n", "a\nb", "a\r\nb\r\n", "\n", "\n\n", "a\r", "a\r\n", "\r\n", "a\n\nb",
        "a\rb\n", "x\r\r\ny",
    ];
    for s in samples {
        let expected: Vec<&str> = s.lines().collect();
        assert_eq!(lines(s), expected, "{:?}", s);
    }
}

#[test]
fn keys_are_looked_up_line_by_line() {
    assert_eq!(strip_prefix_repeated("ababc", "ab"), "c");
    assert_eq!(strip_prefix_repeated("abc", ""), "abc");
    assert_eq!(strip_prefix_repeated("abc", "x"), "abc");
    assert_eq!(strip_prefix_repeated("aaa", "a"), "");
    for s in ["ababc", "abc", "", "xxab"] {
        assert_eq!(strip_prefix_repeated(s, "ab"), s.trim_start_matches("ab"));
    }
    assert_eq!(find_key_value("A=1\nB=2\n", "B="), Some("2".to_string()));
    assert_eq!(find_key_value("A=1\nB=2\nB=3", "B="), Some("2".to_string()));
    assert_eq!(find_key_value("A=1\n", "B="), None);
    assert_eq!(find_key_value("", "B="), None);
    assert_eq!(find_key_value("B=\r\n", "B="), Some("".to_string()));
}

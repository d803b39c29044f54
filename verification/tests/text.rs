use meet_scribe::utils::text::{
    char_is_whitespace, chars_of, contains, decimal_string, parse_index, push_decimal, str_equal,
};

#[test]
fn decimal_numerals() {
    assert_eq!(decimal_string(0), "0");
    assert_eq!(decimal_string(7), "7");
    assert_eq!(decimal_string(10), "10");
    assert_eq!(decimal_string(1234567890), "1234567890");
    assert_eq!(decimal_string(u64::MAX), "18446744073709551615");
    let mut out = vec!['#'];
    push_decimal(405, &mut out);
    assert_eq!(out, vec!['#', '4', '0', '5']);
}

#[test]
fn whitespace_is_what_trim_takes_off() {
    let mut code: u32 = 0;
    while code <= 0x3100 {
        if let Some(c) = char::from_u32(code) {
            assert_eq!(char_is_whitespace(c), c.is_whitespace(), "U+{:04X}", code);
        }
        code += 1;
    }
    assert!(!char_is_whitespace('\u{feff}'));
    assert!(!char_is_whitespace('\u{200b}'));
}

#[test]
fn numerals_are_read_as_unsigned_integers_are() {
    for text in ["0", "5", "+5", "0005", "18446744073709551615", "18446744073709551616", "", "+", "-0",
        "++1", "1+", " 1", "1 ", "12a", "٣", "999999999999999999999999999999"]
    {
        let chars: Vec<char> = text.chars().collect();
        assert_eq!(parse_index(&chars, 0, chars.len()), text.parse::<usize>().ok(), "{:?}", text);
    }
    let chars: Vec<char> = "ab42cd".chars().collect();
    assert_eq!(parse_index(&chars, 2, 4), Some(42));
    assert_eq!(parse_index(&chars, 2, 2), None);
    assert_eq!(parse_index(&chars, 1, 4), None);
}

#[test]
fn substrings() {
    assert!(contains("gpt-4-turbo", "gpt-4"));
    assert!(contains("gpt-4-turbo", "turbo"));
    assert!(contains("gpt-4-turbo", ""));
    assert!(contains("", ""));
    assert!(!contains("", "a"));
    assert!(!contains("gpt-4", "gpt-4-turbo"));
    assert!(!contains("aaab", "aaaa"));
    assert!(contains("aaab", "aab"));
    assert!(contains("xäöüy", "öü"));
    assert!(str_equal("abc", "abc"));
    assert!(!str_equal("abc", "abd"));
    assert!(!str_equal("abc", "ab"));
    assert_eq!(chars_of("aé€"), vec!['a', 'é', '€']);
}

use lenzu::text::{decimal_string, join_strings, str_equals, trim_str};

#[test]
fn decimal_rendering() {
    assert_eq!(decimal_string(0), "0");
    assert_eq!(decimal_string(7331), "7331");
    assert_eq!(decimal_string(u64::MAX), "18446744073709551615");
}

#[test]
fn joining() {
    let parts = vec!["a".to_string(), "b".to_string(), "c".to_string()];
    assert_eq!(join_strings(&parts, ", "), "a, b, c");
    assert_eq!(join_strings(&vec![], ", "), "");
}

#[test]
fn trimming_matches_std() {
    for s in ["", "  ", " a ", "\u{3000}猫\u{2029}", "\t\nx y\r\n", "\u{85}z\u{a0}", "\u{200b}q"] {
        assert_eq!(trim_str(s), s.trim());
    }
}

#[test]
fn string_equality() {
    assert!(str_equals("猫", "猫"));
    assert!(!str_equals("猫", "犬"));
    assert!(!str_equals("ab", "a"));
}

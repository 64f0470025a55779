use hermesgate::text::{contains, eq_ignore_ascii_case, i64_to_decimal, remove_separators, trim_str};

#[test]
fn decimal_text_of_integers() {
    assert_eq!(i64_to_decimal(0), "0");
    assert_eq!(i64_to_decimal(10), "10");
    assert_eq!(i64_to_decimal(-42), "-42");
    assert_eq!(i64_to_decimal(i64::MAX), i64::MAX.to_string());
    assert_eq!(i64_to_decimal(i64::MIN), i64::MIN.to_string());
}

#[test]
fn trimming_matches_str_trim() {
    for s in ["  a b  ", "\t\n x\u{3000}", "", "   ", "\u{a0}y\u{2028}", "z"] {
        assert_eq!(trim_str(s), s.trim());
    }
}

#[test]
fn separators_are_removed() {
    let r: String = remove_separators("+1 (555) 123-4567").into_iter().collect();
    assert_eq!(r, "+15551234567");
}

#[test]
fn ascii_case_insensitive_equality() {
    assert!(eq_ignore_ascii_case("ALL", "all"));
    assert!(!eq_ignore_ascii_case("ALL", "al"));
    assert!(!eq_ignore_ascii_case("ÄLL", "äll"));
}

#[test]
fn substring_search() {
    let h: Vec<char> = "your code".chars().collect();
    assert!(contains(&h, &"code".chars().collect::<Vec<_>>()));
    assert!(!contains(&h, &"pin".chars().collect::<Vec<_>>()));
    assert!(contains(&h, &[]));
}

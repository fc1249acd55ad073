use mailgate::strutil::{contains_string, find_char, join_strings, remove_spaces, split_csv,
    str_eq, str_le, str_starts_with, trim_ascii, u32_to_dec, u64_to_dec};

#[test]
fn decimal_rendering_is_exact() {
    assert_eq!(u64_to_dec(0), "0");
    assert_eq!(u64_to_dec(7), "7");
    assert_eq!(u64_to_dec(10), "10");
    assert_eq!(u64_to_dec(18446744073709551615), "18446744073709551615");
    assert_eq!(u32_to_dec(4294967295), "4294967295");
}

#[test]
fn joining_with_separators() {
    assert_eq!(join_strings(&vec![], ", "), "");
    assert_eq!(join_strings(&vec!["a".to_string()], ", "), "a");
    assert_eq!(join_strings(&vec!["a".to_string(), "b".to_string()], ", "), "a, b");
    assert_eq!(join_strings(&vec!["a".to_string(), "b".to_string()], ","), "a,b");
}

#[test]
fn csv_splitting_matches_std_semantics() {
    assert_eq!(split_csv(""), vec![""]);
    assert_eq!(split_csv("a"), vec!["a"]);
    assert_eq!(split_csv("a,b"), vec!["a", "b"]);
    assert_eq!(split_csv("a,,b,"), vec!["a", "", "b", ""]);
}

#[test]
fn trimming_and_space_removal() {
    assert_eq!(trim_ascii("  x y \t\r\n"), "x y");
    assert_eq!(trim_ascii(""), "");
    assert_eq!(remove_spaces("a b  c"), "abc");
    assert_eq!(remove_spaces("   "), "");
}

#[test]
fn string_comparisons() {
    assert!(str_le("2024-01-01", "2024-01-02"));
    assert!(!str_le("2024-01-02", "2024-01-01"));
    assert!(str_le("abc", "abc"));
    assert!(str_le("ab", "abc"));
    assert!(str_eq("same", "same"));
    assert!(!str_eq("same", "samE"));
    assert!(str_starts_with("Bearer tok", "Bearer "));
    assert!(!str_starts_with("Be", "Bearer "));
}

#[test]
fn finding_characters_and_membership() {
    assert_eq!(find_char("a,b", ','), Some(1));
    assert_eq!(find_char("ab", ','), None);
    let v = vec!["INBOX".to_string(), "UNREAD".to_string()];
    assert!(contains_string(&v, "UNREAD"));
    assert!(!contains_string(&v, "STARRED"));
}

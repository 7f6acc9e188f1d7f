//! String-utility tests: equality, affixes, splitting, joining,
//! substring search and saturating arithmetic.

use aip::text::{
    contains_substr, has_prefix, has_suffix, join_with, list_contains, opt_str_eq, sat_add,
    scope_allowed, split_words, str_eq, strip_prefix_str,
};

#[test]
fn string_equality_is_exact() {
    assert!(str_eq("", ""));
    assert!(str_eq("abc", "abc"));
    assert!(!str_eq("abc", "abd"));
    assert!(!str_eq("abc", "abcd"));
    assert!(str_eq("naïve", "naïve"));
    assert!(!str_eq("naïve", "naive"));
}

#[test]
fn optional_string_equality() {
    assert!(opt_str_eq(&None, &None));
    assert!(opt_str_eq(&Some("a".to_string()), &Some("a".to_string())));
    assert!(!opt_str_eq(&Some("a".to_string()), &Some("b".to_string())));
    assert!(!opt_str_eq(&Some("a".to_string()), &None));
}

#[test]
fn affix_tests() {
    assert!(has_prefix("Basic abc", "Basic "));
    assert!(!has_prefix("Bearer abc", "Basic "));
    assert!(has_prefix("x", ""));
    assert!(has_suffix("photo.JPG", ".JPG"));
    assert!(!has_suffix("photo.png", ".jpg"));
    assert_eq!(strip_prefix_str("at://did/x", "at://"), Some("did/x"));
    assert_eq!(strip_prefix_str("https://x", "at://"), None);
}

#[test]
fn splitting_words_skips_empty_pieces() {
    assert_eq!(split_words("a b  c"), vec!["a", "b", "c"]);
    assert_eq!(split_words("  read   write "), vec!["read", "write"]);
    assert_eq!(split_words(""), Vec::<String>::new());
    assert_eq!(split_words("   "), Vec::<String>::new());
    assert_eq!(split_words("one"), vec!["one"]);
}

#[test]
fn scope_checking_is_word_by_word() {
    let allowed = vec!["read".to_string(), "write".to_string()];
    assert!(scope_allowed("read", &allowed));
    assert!(scope_allowed("read write", &allowed));
    assert!(scope_allowed("", &allowed));
    assert!(!scope_allowed("read admin", &allowed));
    assert!(list_contains(&allowed, "write"));
    assert!(!list_contains(&allowed, "admin"));
}

#[test]
fn joining_with_separators() {
    assert_eq!(join_with(&vec![], ","), "");
    assert_eq!(join_with(&vec!["a".to_string()], ","), "a");
    assert_eq!(join_with(&vec!["a".to_string(), "b".to_string(), "c".to_string()], ","), "a,b,c");
}

#[test]
fn substring_search() {
    assert!(contains_substr("Authorization pending for device", "Authorization pending"));
    assert!(!contains_substr("database on fire", "Authorization pending"));
    assert!(contains_substr("abc", ""));
    assert!(!contains_substr("ab", "abc"));
}

#[test]
fn saturating_addition_caps() {
    assert_eq!(sat_add(1, 2), 3);
    assert_eq!(sat_add(u64::MAX, 1), u64::MAX);
    assert_eq!(sat_add(u64::MAX - 5, 10), u64::MAX);
    assert_eq!(sat_add(0, u64::MAX), u64::MAX);
}

use quicktrans::textops::{
    find_str, is_blank_str, replace_all, str_eq, to_lower, to_upper, trim_end_char, trim_str,
    u64_to_string,
};

#[test]
fn str_eq_compares_characters() {
    assert!(str_eq("", ""));
    assert!(str_eq("你好", "你好"));
    assert!(!str_eq("a", "A"));
    assert!(!str_eq("ab", "abc"));
}

#[test]
fn replace_all_scans_left_to_right() {
    assert_eq!(replace_all("aaa", "aa", "b"), "ba");
    assert_eq!(replace_all("x{k}y{k}", "{k}", "v"), "xvyv");
    assert_eq!(replace_all("abc", "z", "y"), "abc");
    assert_eq!(replace_all("abc", "", "y"), "abc");
}

#[test]
fn find_str_returns_the_first_occurrence() {
    assert_eq!(find_str("abcabc", "bc"), Some(1));
    assert_eq!(find_str("abc", "d"), None);
    assert_eq!(find_str("abc", ""), Some(0));
}

#[test]
fn trim_removes_surrounding_whitespace() {
    assert_eq!(trim_str("  hi\t"), "hi");
    assert_eq!(trim_str("hi"), "hi");
    assert_eq!(trim_str(" \u{3000} "), "");
    assert_eq!(trim_str(""), "");
}

#[test]
fn trim_end_char_drops_trailing_copies() {
    assert_eq!(trim_end_char("http://x///", '/'), "http://x");
    assert_eq!(trim_end_char("abc", '/'), "abc");
    assert_eq!(trim_end_char("///", '/'), "");
}

#[test]
fn blankness_covers_unicode_whitespace() {
    assert!(is_blank_str(""));
    assert!(is_blank_str(" \t\n\u{a0}"));
    assert!(!is_blank_str(" a "));
}

#[test]
fn decimal_rendering_is_exact() {
    assert_eq!(u64_to_string(0), "0");
    assert_eq!(u64_to_string(7), "7");
    assert_eq!(u64_to_string(120), "120");
    assert_eq!(u64_to_string(18446744073709551615), "18446744073709551615");
}

#[test]
fn case_folding_wrappers_fold() {
    assert_eq!(to_upper("space"), "SPACE");
    assert_eq!(to_lower("Meta"), "meta");
    assert_eq!(to_upper(""), "");
}

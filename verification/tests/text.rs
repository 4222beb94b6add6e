use skin_trader::text::{contains, parse_u64, starts_with, str_eq, str_lt};

#[test]
fn contains_finds_substrings() {
    assert!(contains("/exchange/v1/customized-fees", "fees"));
    assert!(contains("abc", ""));
    assert!(!contains("/exchange/v1/market/items", "fees"));
    assert!(!contains("fe", "fees"));
    assert!(contains("fees", "fees"));
}

#[test]
fn starts_with_prefixes() {
    assert!(starts_with("/market/search/get", "/market/search"));
    assert!(!starts_with("/market/skin/730", "/market/search"));
    assert!(!starts_with("/m", "/market"));
    assert!(starts_with("x", ""));
}

#[test]
fn str_eq_compares_characters() {
    assert!(str_eq("listed", "listed"));
    assert!(!str_eq("listed", "liste"));
    assert!(!str_eq("abc", "abd"));
    assert!(str_eq("", ""));
}

#[test]
fn parse_u64_matches_std() {
    let cases = [
        "0", "42", "+7", "", "+", "-1", "12a", "18446744073709551615",
        "18446744073709551616", "99999999999999999999", "007", " 1", "1700000000",
    ];
    for c in cases {
        assert_eq!(parse_u64(c), c.parse::<u64>().ok(), "input {c:?}");
    }
    assert_eq!(parse_u64("1700000000"), Some(1_700_000_000));
    assert_eq!(parse_u64("18446744073709551616"), None);
}

#[test]
fn str_lt_orders_like_str() {
    let words = ["", "B", "a", "ab", "abc", "abd", "b", "z", "é", "\u{10000}"];
    for x in words {
        for y in words {
            assert_eq!(str_lt(x, y), x < y, "{x:?} < {y:?}");
        }
    }
}

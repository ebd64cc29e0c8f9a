use check_links::text::{compare_text, joined, decimal, replace_hyphens, starts_with, Side};

#[test]
fn decimal_writes_numbers() {
    assert_eq!(decimal(0), "0");
    assert_eq!(decimal(7), "7");
    assert_eq!(decimal(10), "10");
    assert_eq!(decimal(404), "404");
    assert_eq!(decimal(1234567890), "1234567890");
    assert_eq!(decimal(u64::MAX), "18446744073709551615");
}

#[test]
fn concat_joins() {
    assert_eq!(joined("ab", "cd"), "abcd");
    assert_eq!(joined("", ""), "");
}

#[test]
fn starts_with_checks_prefix() {
    assert!(starts_with("http://x", "http"));
    assert!(starts_with("http", "http"));
    assert!(starts_with("x", ""));
    assert!(!starts_with("htt", "http"));
    assert!(!starts_with("xhttp", "http"));
    assert!(starts_with("éa", "é"));
}

#[test]
fn hyphens_become_spaces() {
    assert_eq!(replace_hyphens("existing-heading"), "existing heading");
    assert_eq!(replace_hyphens("--a-"), "  a ");
    assert_eq!(replace_hyphens("none"), "none");
    assert_eq!(replace_hyphens(""), "");
    assert_eq!(replace_hyphens("é-ü"), "é ü");
}

#[test]
fn texts_compare_as_in_a_dictionary() {
    assert_eq!(compare_text("a", "b"), Side::Before);
    assert_eq!(compare_text("b", "a"), Side::After);
    assert_eq!(compare_text("a", "a"), Side::Same);
    assert_eq!(compare_text("", ""), Side::Same);
    assert_eq!(compare_text("", "a"), Side::Before);
    assert_eq!(compare_text("ab", "a"), Side::After);
    assert_eq!(compare_text("ab", "b"), Side::Before);
    assert_eq!(compare_text("Z", "a"), Side::Before);
    assert_eq!(compare_text("z", "é"), Side::Before);
}

use doffy_uploader::text::{decimal_text, push_decimal, same_text};

#[test]
fn same_text_compares_whole_strings() {
    assert!(same_text("", ""));
    assert!(same_text("binary", "binary"));
    assert!(same_text("gr\u{fc}n", "gr\u{fc}n"));
    assert!(!same_text("binary", "binarx"));
    assert!(!same_text("binary", "binar"));
    assert!(!same_text("", "a"));
    assert!(!same_text("a", "A"));
}

#[test]
fn decimal_text_writes_numbers_without_leading_zeros() {
    assert_eq!(decimal_text(0), "0");
    assert_eq!(decimal_text(7), "7");
    assert_eq!(decimal_text(10), "10");
    assert_eq!(decimal_text(1234567890), "1234567890");
    assert_eq!(decimal_text(u64::MAX), "18446744073709551615");
}

#[test]
fn decimal_text_agrees_with_the_standard_formatting() {
    let mut n: u64 = 0;
    while n < 100_000 {
        assert_eq!(decimal_text(n), n.to_string());
        n += 1;
    }
    let mut m: u64 = 1;
    while m < u64::MAX / 3 {
        assert_eq!(decimal_text(m), m.to_string());
        m = m * 3 + 1;
    }
}

#[test]
fn push_decimal_appends() {
    let mut text = String::from("n=");
    push_decimal(&mut text, 405);
    push_decimal(&mut text, 0);
    assert_eq!(text, "n=4050");
}

use ffutility::text::{joined, push_decimal, push_signed};

#[test]
fn decimal_digits() {
    for n in [0, 7, 9, 10, 42, 1000, u64::MAX] {
        let mut out = String::from("n=");
        push_decimal(&mut out, n);
        assert_eq!(out, format!("n={}", n));
    }
}

#[test]
fn signed_digits() {
    for n in [0, -1, 10, -10, i64::MAX, i64::MIN] {
        let mut out = String::new();
        push_signed(&mut out, n);
        assert_eq!(out, format!("{}", n));
    }
}

#[test]
fn joined_text() {
    assert_eq!(joined("a: ", "b"), "a: b");
}

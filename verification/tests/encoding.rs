use ferrum_vault::encoding::{i64_to_decimal, push_decimal};

#[test]
fn decimal_text_of_integers() {
    assert_eq!(i64_to_decimal(0), "0");
    assert_eq!(i64_to_decimal(7), "7");
    assert_eq!(i64_to_decimal(-5), "-5");
    assert_eq!(i64_to_decimal(1234567890), "1234567890");
    assert_eq!(i64_to_decimal(i64::MAX), i64::MAX.to_string());
    assert_eq!(i64_to_decimal(i64::MIN), i64::MIN.to_string());
}

#[test]
fn push_decimal_appends() {
    let mut s = String::from("n=");
    push_decimal(&mut s, 10);
    assert_eq!(s, "n=10");
    push_decimal(&mut s, u64::MAX);
    assert_eq!(s, format!("n=10{}", u64::MAX));
}


use aleo_prover::text::append_decimal;

fn decimal(n: u64) -> String {
    let mut out = String::new();
    append_decimal(&mut out, n);
    out
}

#[test]
fn decimals() {
    assert_eq!(decimal(0), "0");
    assert_eq!(decimal(9), "9");
    assert_eq!(decimal(10), "10");
    assert_eq!(decimal(403591), "403591");
    assert_eq!(decimal(u64::MAX), "18446744073709551615");
}

#[test]
fn decimal_is_appended() {
    let mut out = String::from("n=");
    append_decimal(&mut out, 1234567890);
    assert_eq!(out, "n=1234567890");
}

#[test]
fn decimals_are_distinct() {
    assert_ne!(decimal(1), decimal(10));
    assert_ne!(decimal(100), decimal(10));
    assert_ne!(decimal(12), decimal(21));
}

use budget::money::{format_balance, money_label, round_to_cents, DECIMAL_MAX_MANTISSA};

#[test]
fn rounds_half_to_even() {
    assert_eq!(round_to_cents(12345), Some(123));
    assert_eq!(round_to_cents(12351), Some(124));
    assert_eq!(round_to_cents(12350), Some(124));
    assert_eq!(round_to_cents(12250), Some(122));
    assert_eq!(round_to_cents(-12250), Some(-122));
    assert_eq!(round_to_cents(-12251), Some(-123));
    assert_eq!(round_to_cents(0), Some(0));
}

#[test]
fn round_refuses_what_a_decimal_cannot_hold() {
    assert_eq!(round_to_cents(DECIMAL_MAX_MANTISSA), Some(DECIMAL_MAX_MANTISSA / 100));
    assert_eq!(round_to_cents(DECIMAL_MAX_MANTISSA + 1), None);
    assert_eq!(round_to_cents(-DECIMAL_MAX_MANTISSA - 1), None);
}

#[test]
fn balance_labels() {
    assert_eq!(format_balance(12345).unwrap(), "$ 1.23");
    assert_eq!(format_balance(1_000_000).unwrap(), "$ 100.00");
    assert_eq!(format_balance(0).unwrap(), "$ 0.00");
    assert_eq!(format_balance(-5000).unwrap(), "$ -0.50");
    assert_eq!(format_balance(-49).unwrap(), "$ 0.00");
    assert_eq!(format_balance(DECIMAL_MAX_MANTISSA + 1), None);
}

#[test]
fn label_prefix() {
    assert_eq!(money_label("12.50"), "$ 12.50");
}

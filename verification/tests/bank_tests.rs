use solo_machine::bank::parse_amount;
use std::str::FromStr;

use rust_decimal::Decimal;
use solo_machine::bank::{balance_path, burn, deserialize_balance, deserialize_decimal, mint, mint_to, BankError};
use solo_machine::decimal::DecimalBytes;

fn dec(s: &str) -> DecimalBytes {
    DecimalBytes { bytes: Decimal::from_str(s).unwrap().serialize() }
}

fn stored(s: &str) -> Option<Vec<u8>> {
    Some(Decimal::from_str(s).unwrap().serialize().to_vec())
}

fn value(bytes: &[u8]) -> Decimal {
    let mut b = [0u8; 16];
    b.copy_from_slice(bytes);
    Decimal::deserialize(b)
}

#[test]
fn balance_paths() {
    assert_eq!(balance_path("cosmos1abc", "gld"), "balances/cosmos1abc/gld");
}

#[test]
fn missing_balance_is_zero() {
    assert_eq!(Decimal::deserialize(deserialize_balance(&None).unwrap().bytes), Decimal::ZERO);
    assert_eq!(deserialize_balance(&Some(vec![1, 2, 3])).unwrap_err(), BankError::InvalidStoredBalance);
    assert_eq!(deserialize_decimal(&[0u8; 15]).unwrap_err(), BankError::InvalidStoredBalance);
    assert_eq!(Decimal::deserialize(deserialize_decimal(&dec("2.5").bytes).unwrap().bytes), Decimal::from_str("2.5").unwrap());
}

#[test]
fn mint_adds_to_balance() {
    let new = mint(&None, dec("100")).unwrap();
    assert_eq!(value(&new), Decimal::from(100));
    let new = mint(&stored("1.5"), dec("2")).unwrap();
    assert_eq!(value(&new), Decimal::from_str("3.5").unwrap());
    assert_eq!(mint(&None, dec("-1")).unwrap_err(), BankError::NegativeAmount);
    let new = mint_to(&stored("5"), dec("-1")).unwrap();
    assert_eq!(value(&new), Decimal::from(4));
    assert_eq!(mint(&Some(Decimal::MAX.serialize().to_vec()), dec("1")).unwrap_err(), BankError::Overflow);
}

#[test]
fn burn_refuses_more_than_the_balance() {
    let new = burn(&stored("10"), dec("4")).unwrap();
    assert_eq!(value(&new), Decimal::from(6));
    let new = burn(&stored("10"), dec("10")).unwrap();
    assert_eq!(value(&new), Decimal::ZERO);
    assert_eq!(burn(&stored("10"), dec("10.01")).unwrap_err(), BankError::InsufficientBalance);
    assert_eq!(burn(&None, dec("1")).unwrap_err(), BankError::InsufficientBalance);
    assert_eq!(burn(&stored("10"), dec("-1")).unwrap_err(), BankError::NegativeAmount);
    assert_eq!(burn(&Some(vec![0u8; 3]), dec("1")).unwrap_err(), BankError::InvalidStoredBalance);
}

#[test]
fn mint_then_burn_restores_balance() {
    let start = stored("7.25");
    let after_mint = mint(&start, dec("3")).unwrap();
    let after_burn = burn(&Some(after_mint), dec("3")).unwrap();
    assert_eq!(value(&after_burn), Decimal::from_str("7.25").unwrap());
}

#[test]
fn amounts_parse_as_decimals() {
    assert_eq!(Decimal::deserialize(parse_amount("12.50").unwrap().bytes), Decimal::from_str("12.50").unwrap());
    assert_eq!(parse_amount("twelve").unwrap_err(), BankError::InvalidAmount);
}

#[test]
fn mint_then_burn_restores_balance_across_scales() {
    for (start, amount) in [("0", "0.001"), ("12.5", "0.25"), ("0.0001", "99999"), ("79228162514264337593543950334", "1")] {
        let after_mint = mint(&stored(start), dec(amount)).unwrap();
        let after_burn = burn(&Some(after_mint), dec(amount)).unwrap();
        assert_eq!(value(&after_burn), Decimal::from_str(start).unwrap());
    }
}

#[test]
fn burn_of_at_most_the_balance_succeeds_exactly() {
    let new = burn(&stored("5.000"), dec("4.5")).unwrap();
    assert_eq!(value(&new), Decimal::from_str("0.5").unwrap());
    let new = burn(&stored("79228162514264337593543950335"), dec("79228162514264337593543950335")).unwrap();
    assert_eq!(value(&new), Decimal::ZERO);
}

#[test]
fn burn_succeeds_whenever_the_balance_covers_the_amount() {
    // the amount's scale is larger than the balance's and the aligned balance exceeds 96 bits
    let new = burn(&stored("79228162514264337593543950335"), dec("0.0000000000000000000000000001")).unwrap();
    assert!(value(&new) <= Decimal::MAX);
    let new = burn(&stored("1.0000000000000000000000000000"), dec("1")).unwrap();
    assert_eq!(value(&new), Decimal::ZERO);
}

#[test]
fn mint_then_burn_restores_balance_when_the_sum_needs_fewer_digits() {
    // 1 with 28 zero decimals plus 10^10: the sum does not fit at scale 28, but nothing is lost
    let start = "1.0000000000000000000000000000";
    let after_mint = mint(&stored(start), dec("10000000000")).unwrap();
    assert_eq!(value(&after_mint), Decimal::from_str("10000000001").unwrap());
    let after_burn = burn(&Some(after_mint), dec("10000000000")).unwrap();
    assert_eq!(value(&after_burn), Decimal::from_str(start).unwrap());
}

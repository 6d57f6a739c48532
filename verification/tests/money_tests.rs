use paptura::money::Decimal;

#[test]
fn add_exact() {
    let a = Decimal::from_nanos(1_500_000_000);
    let b = Decimal::from_nanos(2_250_000_000);
    let c = a.checked_add(b).unwrap();
    assert_eq!(c.as_nanos(), 3_750_000_000);
}

#[test]
fn add_overflow_is_absent() {
    let a = Decimal::from_nanos(i64::MAX);
    let b = Decimal::from_nanos(1);
    assert!(a.checked_add(b).is_none());
}

#[test]
fn sub_goes_negative() {
    let a = Decimal::from_nanos(5_000_000_000);
    let b = Decimal::from_nanos(7_000_000_000);
    let c = a.checked_sub(b).unwrap();
    assert_eq!(c.as_nanos(), -2_000_000_000);
}

#[test]
fn mul_exact() {
    let net = Decimal::from_nanos(100_000_000_000);
    let rate = Decimal::from_nanos(230_000_000);
    let vat = net.checked_mul(rate).unwrap();
    assert_eq!(vat.as_nanos(), 23_000_000_000);
}

#[test]
fn mul_inexact_is_absent() {
    let a = Decimal::from_nanos(1);
    let b = Decimal::from_nanos(1);
    assert!(a.checked_mul(b).is_none());
}

#[test]
fn from_units_whole() {
    let a = Decimal::from_units(2137).unwrap();
    assert_eq!(a.as_nanos(), 2_137_000_000_000);
}

#[test]
fn from_mantissa_scale_two_places() {
    let a = Decimal::from_mantissa_scale(213_799, 2).unwrap();
    assert_eq!(a.as_nanos(), 2_137_990_000_000);
}

#[test]
fn from_mantissa_scale_negative() {
    let a = Decimal::from_mantissa_scale(-12_345, 4).unwrap();
    assert_eq!(a.as_nanos(), -1_234_500_000);
}

#[test]
fn from_mantissa_scale_deep_scale_exact() {
    let a = Decimal::from_mantissa_scale(2_300_000_000_000_000_000, 19).unwrap();
    assert_eq!(a.as_nanos(), 230_000_000);
}

#[test]
fn from_mantissa_scale_too_fine_is_absent() {
    assert!(Decimal::from_mantissa_scale(5, 28).is_none());
}

#[test]
fn default_is_zero() {
    assert_eq!(Decimal::default().as_nanos(), 0);
}

#[test]
fn le_lt_compare_values() {
    let a = Decimal::from_nanos(10);
    let b = Decimal::from_nanos(11);
    assert!(a.le(&b));
    assert!(a.lt(&b));
    assert!(!b.le(&a));
}

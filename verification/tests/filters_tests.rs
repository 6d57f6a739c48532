use paptura::filters::format_currency;
use paptura::filters::format_percent;
use paptura::money::Decimal;
use paptura::PapturaError;

#[test]
fn percent_of_twenty_three() {
    let rate = Decimal::from_nanos(230_000_000);
    assert_eq!(format_percent(rate).unwrap(), "23.00%");
}

#[test]
fn currency_of_2137() {
    let money = Decimal::from_nanos(2_137_000_000_000);
    assert_eq!(format_currency(money), "2137.00");
}

#[test]
fn currency_negative() {
    let money = Decimal::from_nanos(-1_500_000_000);
    assert_eq!(format_currency(money), "-1.50");
}

#[test]
fn currency_rounds_half_up() {
    let money = Decimal::from_nanos(1_005_000_000);
    assert_eq!(format_currency(money), "1.01");
}

#[test]
fn currency_zero() {
    assert_eq!(format_currency(Decimal::from_nanos(0)), "0.00");
}

#[test]
fn percent_overflow_is_a_rendering_error() {
    let rate = Decimal::from_nanos(i64::MAX);
    let r = format_percent(rate);
    assert!(matches!(r, Err(PapturaError::RenderingError)));
}

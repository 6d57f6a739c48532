use paptura::dates::format_iso_date;
use paptura::dates::next_date;
use paptura::dates::plus_three_days;
use paptura::dates::today;
use paptura::dates::Date;

#[test]
fn next_day_in_leap_february() {
    let d = Date { rok: 2024, miesiac: 2, dzien: 28 };
    let n = next_date(&d);
    assert_eq!((n.rok, n.miesiac, n.dzien), (2024, 2, 29));
}

#[test]
fn next_day_in_plain_february() {
    let d = Date { rok: 2023, miesiac: 2, dzien: 28 };
    let n = next_date(&d);
    assert_eq!((n.rok, n.miesiac, n.dzien), (2023, 3, 1));
}

#[test]
fn century_years_follow_gregorian_rule() {
    let d1900 = Date { rok: 1900, miesiac: 2, dzien: 28 };
    let n1 = next_date(&d1900);
    assert_eq!((n1.rok, n1.miesiac, n1.dzien), (1900, 3, 1));
    let d2000 = Date { rok: 2000, miesiac: 2, dzien: 28 };
    let n2 = next_date(&d2000);
    assert_eq!((n2.rok, n2.miesiac, n2.dzien), (2000, 2, 29));
}

#[test]
fn three_days_across_new_year() {
    let d = Date { rok: 2023, miesiac: 12, dzien: 29 };
    let n = plus_three_days(&d);
    assert_eq!((n.rok, n.miesiac, n.dzien), (2024, 1, 1));
}

#[test]
fn iso_form_pads_the_year() {
    let d = Date { rok: 987, miesiac: 6, dzien: 5 };
    assert_eq!(format_iso_date(&d), "0987-06-05");
}

#[test]
fn iso_form_plain() {
    let d = Date { rok: 2024, miesiac: 11, dzien: 30 };
    assert_eq!(format_iso_date(&d), "2024-11-30");
}

#[test]
fn the_clock_reports_a_well_formed_date() {
    let d = today();
    assert!((1..=12).contains(&d.miesiac));
    assert!((1..=31).contains(&d.dzien));
}

//! Calendar dates, modelled as year, month and day of the proleptic
//! Gregorian calendar.  The current date comes from the system clock at
//! the boundary; everything derived from a date is computed here.
use chrono::Datelike;
use vstd::prelude::*;

use crate::text::dec_str;
use crate::text::push_dec_u64;
use crate::text::push_two_digits;
use crate::text::string_from_chars;
use crate::text::two_digits;

verus! {

/// A calendar date.
#[derive(Clone, Copy, Debug, PartialEq, Eq, Structural)]
pub struct Date {
    pub rok: i32,
    pub miesiac: u8,
    pub dzien: u8,
}

/// Whether `y` is a leap year of the proleptic Gregorian calendar.
pub open spec fn is_leap(y: int) -> bool {
    let a = if y < 0 {
        -y
    } else {
        y
    };
    a % 4 == 0 && (a % 100 != 0 || a % 400 == 0)
}

/// How many days the given month of the given year has.
pub open spec fn days_in_month(y: int, m: int) -> int {
    if m == 2 {
        if is_leap(y) {
            29
        } else {
            28
        }
    } else if m == 4 || m == 6 || m == 9 || m == 11 {
        30
    } else {
        31
    }
}

impl Date {
    /// A well-formed calendar date, with the year kept in a range wide
    /// enough for every date the clock can report.
    pub open spec fn valid(&self) -> bool {
        &&& -400000 <= self.rok <= 400000
        &&& 1 <= self.miesiac <= 12
        &&& 1 <= self.dzien <= days_in_month(self.rok as int, self.miesiac as int)
    }

    /// The date one day later.
    pub open spec fn next_spec(&self) -> Date {
        if self.dzien < days_in_month(self.rok as int, self.miesiac as int) {
            Date { rok: self.rok, miesiac: self.miesiac, dzien: (self.dzien + 1) as u8 }
        } else if self.miesiac < 12 {
            Date { rok: self.rok, miesiac: (self.miesiac + 1) as u8, dzien: 1 }
        } else {
            Date { rok: (self.rok + 1) as i32, miesiac: 1, dzien: 1 }
        }
    }

    /// The date three days later.
    pub open spec fn plus3_spec(&self) -> Date {
        self.next_spec().next_spec().next_spec()
    }
}

/// Whether `y` is a leap year.
pub fn is_leap_year(y: i32) -> (r: bool)
    ensures
        r == is_leap(y as int),
{
    let a: u32 = if y < 0 {
        ((-(y + 1)) as u32) + 1
    } else {
        y as u32
    };
    a % 4 == 0 && (a % 100 != 0 || a % 400 == 0)
}

/// How many days the given month has.
pub fn days_in_month_x(y: i32, m: u8) -> (r: u8)
    ensures
        r == days_in_month(y as int, m as int),
{
    if m == 2 {
        if is_leap_year(y) {
            29
        } else {
            28
        }
    } else if m == 4 || m == 6 || m == 9 || m == 11 {
        30
    } else {
        31
    }
}

/// The date one day later.
pub fn next_date(d: &Date) -> (r: Date)
    requires
        d.valid(),
        d.rok < 400000,
    ensures
        r == d.next_spec(),
        r.valid(),
        r.rok <= d.rok + 1,
{
    let dim = days_in_month_x(d.rok, d.miesiac);
    if d.dzien < dim {
        Date { rok: d.rok, miesiac: d.miesiac, dzien: d.dzien + 1 }
    } else if d.miesiac < 12 {
        Date { rok: d.rok, miesiac: d.miesiac + 1, dzien: 1 }
    } else {
        Date { rok: d.rok + 1, miesiac: 1, dzien: 1 }
    }
}

/// The date three days later.
pub fn plus_three_days(d: &Date) -> (r: Date)
    requires
        d.valid(),
        d.rok < 399997,
    ensures
        r == d.plus3_spec(),
        r.valid(),
{
    let d1 = next_date(d);
    let d2 = next_date(&d1);
    next_date(&d2)
}

/// `d` written as an ISO-8601 calendar date, `YYYY-MM-DD`, the year
/// zero-padded to four digits and signed when negative.
pub open spec fn iso_chars(d: Date) -> Seq<char> {
    let y = if d.rok < 0 {
        -(d.rok as int)
    } else {
        d.rok as int
    };
    let sign: Seq<char> = if d.rok < 0 {
        seq!['-']
    } else {
        Seq::empty()
    };
    sign + year4(y as nat) + seq!['-'] + two_digits(d.miesiac as nat) + seq!['-'] + two_digits(
        d.dzien as nat,
    )
}

/// `n` in decimal, zero-padded to at least four digits.
pub open spec fn year4(n: nat) -> Seq<char> {
    if n < 10 {
        seq!['0', '0', '0'] + dec_str(n)
    } else if n < 100 {
        seq!['0', '0'] + dec_str(n)
    } else if n < 1000 {
        seq!['0'] + dec_str(n)
    } else {
        dec_str(n)
    }
}

/// The ISO-8601 form of `d`, appended to `out`.
pub fn push_iso_date(out: &mut Vec<char>, d: &Date)
    requires
        d.valid(),
    ensures
        final (out)@ == old(out)@ + iso_chars(*d),
{
    if d.rok < 0 {
        out.push('-');
    }
    let y: u32 = if d.rok < 0 {
        ((-(d.rok + 1)) as u32) + 1
    } else {
        d.rok as u32
    };
    if y < 10 {
        out.push('0');
        out.push('0');
        out.push('0');
    } else if y < 100 {
        out.push('0');
        out.push('0');
    } else if y < 1000 {
        out.push('0');
    }
    push_dec_u64(out, y as u64);
    out.push('-');
    push_two_digits(out, d.miesiac as u64);
    out.push('-');
    push_two_digits(out, d.dzien as u64);
    proof {
        assert(final (out)@ =~= old(out)@ + iso_chars(*d));
    }
}

/// The ISO-8601 form of `d` as a string.
pub fn format_iso_date(d: &Date) -> (r: String)
    requires
        d.valid(),
    ensures
        r@ == iso_chars(*d),
{
    let mut out: Vec<char> = Vec::new();
    push_iso_date(&mut out, d);
    string_from_chars(&out)
}

/// Relies on `chrono::Local::now` and `NaiveDate`'s `Datelike`
/// accessors: the current local calendar date, always well formed, with
/// the year within chrono's documented bounds of roughly two hundred
/// and sixty-two thousand years either way.
#[verifier::external_body]
pub fn today() -> (d: Date)
    ensures
        d.valid(),
{
    let n = chrono::Local::now().date_naive();
    Date { rok: n.year(), miesiac: n.month() as u8, dzien: n.day() as u8 }
}

} // verus!

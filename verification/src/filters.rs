//! The two formatting capabilities handed to the rendering boundary.
use vstd::prelude::*;

use crate::money::Decimal;
use crate::money::NANO;
use crate::text::dec_str;
use crate::text::push_dec_u64;
use crate::text::push_two_digits;
use crate::text::string_from_chars;
use crate::text::two_digits;
use crate::PapturaError;

verus! {

/// An amount of `v` billionths written with exactly two decimal places:
/// an optional minus sign, the whole part, a dot, and two digits, the
/// magnitude rounded half away from zero to the nearest hundredth.
pub open spec fn currency_chars(v: int) -> Seq<char> {
    let mag = if v < 0 {
        -v
    } else {
        v
    };
    let cents = (mag + 5_000_000) / 10_000_000;
    let sign: Seq<char> = if v < 0 {
        seq!['-']
    } else {
        Seq::empty()
    };
    sign + dec_str((cents / 100) as nat) + seq!['.'] + two_digits((cents % 100) as nat)
}

/// `money` written with two decimal places, e.g. `2137.00`.
pub fn format_currency(money: Decimal) -> (r: String)
    ensures
        r@ == currency_chars(money.value()),
{
    let nanos = money.as_nanos();
    let neg = nanos < 0;
    let mag: u64 = if nanos < 0 {
        ((-(nanos + 1)) as u64) + 1
    } else {
        nanos as u64
    };
    let cents = (mag + 5_000_000) / 10_000_000;
    let mut out: Vec<char> = Vec::new();
    if neg {
        out.push('-');
    }
    push_dec_u64(&mut out, cents / 100);
    out.push('.');
    push_two_digits(&mut out, cents % 100);
    proof {
        let sign: Seq<char> = if money.value() < 0 {
            seq!['-']
        } else {
            Seq::<char>::empty()
        };
        assert(out@ =~= sign + dec_str((cents / 100) as nat) + seq!['.'] + two_digits(
            (cents % 100) as nat,
        ));
    }
    string_from_chars(&out)
}

/// `value` times one hundred, written with two decimal places and a
/// trailing percent sign, e.g. `23.00%`; fails with a rendering error
/// where that multiplication leaves the representable range.
pub fn format_percent(value: Decimal) -> (r: Result<String, PapturaError>)
    ensures
        match r {
            Ok(s) => i64::MIN <= 100 * value.value() <= i64::MAX && s@ == currency_chars(
                100 * value.value(),
            ) + seq!['%'],
            Err(e) => !(i64::MIN <= 100 * value.value() <= i64::MAX) && e
                is RenderingError,
        },
{
    let hundred = Decimal::from_nanos(100 * NANO);
    proof {
        lemma_times_hundred(value.value());
    }
    match value.checked_mul(hundred) {
        Some(p) => {
            proof {
                assert(p.value() == 100 * value.value()) by (nonlinear_arith)
                    requires
                        p.value() * (NANO as int) == value.value() * (100 * (NANO as int)),
                        NANO == 1_000_000_000,
                ;
            }
            let mut s = format_currency(p);
            crate::text::push_char(&mut s, '%');
            Ok(s)
        },
        None => Err(PapturaError::RenderingError),
    }
}

/// Multiplying billionths by the amount one hundred is representable
/// exactly when one hundred times the value stays in range.
proof fn lemma_times_hundred(v: int)
    ensures
        crate::money::product_representable(v, 100 * (NANO as int)) <==> (i64::MIN <= 100 * v
            <= i64::MAX),
{
    let n = NANO as int;
    assert((v * (100 * n)) == (100 * v) * n) by (nonlinear_arith);
    assert(((100 * v) * n) % n == 0) by {
        vstd::arithmetic::div_mod::lemma_mod_multiples_basic(100 * v, n);
    }
    assert((i64::MIN as int) * n <= (100 * v) * n <= (i64::MAX as int) * n <==> (i64::MIN <= 100 * v
        <= i64::MAX)) by (nonlinear_arith)
        requires
            n > 0,
    ;
}

} // verus!

//! Exact fixed-point money arithmetic.
//!
//! Every amount on an invoice (a price, a tax rate, a quantity, a total)
//! is a [`Decimal`]: a signed count of billionths, so nine decimal places
//! are carried exactly.  Arithmetic is checked: an operation whose exact
//! result cannot be represented yields `None` ("no value") instead of a
//! wrong number, and that absence propagates through every derived total.
use vstd::prelude::*;

verus! {

/// Billionths per unit: the fixed scale of [`Decimal`].
pub const NANO: i64 = 1_000_000_000;

/// 10^e over the integers.
pub open spec fn pot10(e: nat) -> int
    decreases e,
{
    if e == 0 {
        1
    } else {
        10 * pot10((e - 1) as nat)
    }
}

/// A decimal amount, stored as an exact count of billionths of a unit.
#[derive(Clone, Copy, Debug, PartialEq, Eq, Structural)]
pub struct Decimal {
    nanos: i64,
}

/// Whether the exact product of two amounts (each in billionths) is again
/// representable: it must land on a whole count of billionths and fit
/// in the stored range.
pub open spec fn product_representable(a: int, b: int) -> bool {
    &&& (a * b) % (NANO as int) == 0
    &&& (i64::MIN as int) * (NANO as int) <= a * b <= (i64::MAX as int) * (NANO as int)
}

impl Decimal {
    /// The amount in billionths of a unit.
    pub closed spec fn value(&self) -> int {
        self.nanos as int
    }

    /// The amount holding exactly `n` billionths.
    pub fn from_nanos(n: i64) -> (r: Decimal)
        ensures
            r.value() == n,
    {
        Decimal { nanos: n }
    }

    /// The amount holding exactly `n` whole units.
    pub fn from_units(n: i64) -> (r: Option<Decimal>)
        ensures
            match r {
                Some(c) => c.value() == n * (NANO as int),
                None => !(i64::MIN <= n * (NANO as int) <= i64::MAX),
            },
    {
        match n.checked_mul(NANO) {
            Some(v) => Some(Decimal { nanos: v }),
            None => None,
        }
    }

    /// The stored count of billionths.
    pub fn as_nanos(&self) -> (n: i64)
        ensures
            n == self.value(),
    {
        self.nanos
    }

    /// Exact sum, or `None` if it leaves the representable range.
    pub fn checked_add(self, other: Decimal) -> (r: Option<Decimal>)
        ensures
            match r {
                Some(c) => c.value() == self.value() + other.value(),
                None => !(i64::MIN <= self.value() + other.value() <= i64::MAX),
            },
            (r is Some) <==> i64::MIN <= self.value() + other.value() <= i64::MAX,
    {
        match self.nanos.checked_add(other.nanos) {
            Some(v) => Some(Decimal { nanos: v }),
            None => None,
        }
    }

    /// Exact difference, or `None` if it leaves the representable range.
    pub fn checked_sub(self, other: Decimal) -> (r: Option<Decimal>)
        ensures
            match r {
                Some(c) => c.value() == self.value() - other.value(),
                None => !(i64::MIN <= self.value() - other.value() <= i64::MAX),
            },
            (r is Some) <==> i64::MIN <= self.value() - other.value() <= i64::MAX,
    {
        match self.nanos.checked_sub(other.nanos) {
            Some(v) => Some(Decimal { nanos: v }),
            None => None,
        }
    }

    /// Exact product, or `None` where the exact product does not land on
    /// a whole count of billionths or does not fit the stored range.
    pub fn checked_mul(self, other: Decimal) -> (r: Option<Decimal>)
        ensures
            match r {
                Some(c) => c.value() * (NANO as int) == self.value() * other.value(),
                None => !product_representable(self.value(), other.value()),
            },
            (r is Some) <==> product_representable(self.value(), other.value()),
    {
        let a = self.nanos as i128;
        let b = other.nanos as i128;
        proof {
            assert(i128::MIN <= a * b <= i128::MAX) by (nonlinear_arith)
                requires
                    -0x8000_0000_0000_0000 <= a <= 0x7fff_ffff_ffff_ffff,
                    -0x8000_0000_0000_0000 <= b <= 0x7fff_ffff_ffff_ffff,
            ;
        }
        let p = match a.checked_mul(b) {
            Some(p) => p,
            None => {
                proof {
                    assert(false);
                }
                0
            },
        };
        let rem = match p.checked_rem(NANO as i128) {
            Some(rm) => rm,
            None => {
                proof {
                    assert(false);
                }
                0
            },
        };
        proof {
            lemma_rem_zero_iff_divides(p as int, NANO as int);
        }
        if rem != 0 {
            return None;
        }
        let q = match p.checked_div(NANO as i128) {
            Some(q) => q,
            None => {
                proof {
                    lemma_trunc_div_bound(p as int, NANO as int);
                    assert(false);
                }
                0
            },
        };
        proof {
            lemma_exact_trunc_div(p as int, NANO as int);
            assert(q * (NANO as int) == p as int);
        }
        if i64::MIN as i128 <= q && q <= i64::MAX as i128 {
            Some(Decimal { nanos: q as i64 })
        } else {
            proof {
                lemma_mul_le_mono(q as int, NANO as int, i64::MIN as int, i64::MAX as int);
            }
            None
        }
    }

    /// Whether this amount is at most `other`.
    pub fn le(&self, other: &Decimal) -> (r: bool)
        ensures
            r == (self.value() <= other.value()),
    {
        self.nanos <= other.nanos
    }

    /// Whether this amount is strictly below `other`.
    pub fn lt(&self, other: &Decimal) -> (r: bool)
        ensures
            r == (self.value() < other.value()),
    {
        self.nanos < other.nanos
    }
}

/// Whether a value written as `mantissa` times ten to the minus
/// `scale` lands exactly on a representable count of billionths.
pub open spec fn nanos_dokladne(mantissa: int, scale: nat) -> bool {
    if scale <= 9 {
        i64::MIN <= mantissa * pot10((9 - scale) as nat) <= i64::MAX
    } else {
        mantissa % pot10((scale - 9) as nat) == 0 && i64::MIN <= mantissa / pot10(
            (scale - 9) as nat,
        ) <= i64::MAX
    }
}

/// That value's exact count of billionths.
pub open spec fn nanos_z(mantissa: int, scale: nat) -> int {
    if scale <= 9 {
        mantissa * pot10((9 - scale) as nat)
    } else {
        mantissa / pot10((scale - 9) as nat)
    }
}

/// Powers of ten never shrink.
proof fn lemma_pot10_rosnie(a: nat, b: nat)
    requires
        a <= b,
    ensures
        1 <= pot10(a) <= pot10(b),
    decreases b,
{
    if b == 0 {
    } else if a < b {
        lemma_pot10_rosnie(a, (b - 1) as nat);
    } else {
        lemma_pot10_rosnie(0, (a - 1) as nat);
    }
}

/// Ten to the `e`, for small `e`.
fn pot10_i128(e: u32) -> (r: i128)
    requires
        e <= 19,
    ensures
        r == pot10(e as nat),
        1 <= r <= 10_000_000_000_000_000_000,
{
    let mut r: i128 = 1;
    let mut i: u32 = 0;
    while i < e
        invariant
            i <= e <= 19,
            r == pot10(i as nat),
        decreases e - i,
    {
        proof {
            lemma_pot10_rosnie(i as nat, 18);
            reveal_with_fuel(pot10, 20);
            assert(pot10(18) == 1_000_000_000_000_000_000);
        }
        r = r * 10;
        i = i + 1;
    }
    proof {
        lemma_pot10_rosnie(e as nat, 19);
        reveal_with_fuel(pot10, 21);
        assert(pot10(19) == 10_000_000_000_000_000_000);
    }
    r
}

impl Decimal {
    /// The amount holding exactly `mantissa` times ten to the minus
    /// `scale`, or `None` where that value does not land exactly on a
    /// representable count of billionths.
    pub fn from_mantissa_scale(mantissa: i128, scale: u32) -> (r: Option<Decimal>)
        requires
            scale <= 28,
        ensures
            (r is Some) <==> nanos_dokladne(mantissa as int, scale as nat),
            (match r {
                Some(c) => c.value() == nanos_z(mantissa as int, scale as nat),
                None => true,
            }),
    {
        if scale <= 9 {
            let f = pot10_i128(9 - scale);
            match mantissa.checked_mul(f) {
                Some(p) => {
                    if i64::MIN as i128 <= p && p <= i64::MAX as i128 {
                        Some(Decimal { nanos: p as i64 })
                    } else {
                        None
                    }
                },
                None => {
                    proof {
                        assert(!(i64::MIN <= mantissa as int * pot10((9 - scale) as nat)
                            <= i64::MAX));
                    }
                    None
                },
            }
        } else {
            let f = pot10_i128(scale - 9);
            proof {
                lemma_pot10_rosnie(1, (scale - 9) as nat);
            }
            let rem = match mantissa.checked_rem(f) {
                Some(rm) => rm,
                None => {
                    proof {
                        assert(false);
                    }
                    0
                },
            };
            proof {
                lemma_rem_zero_iff_divides(mantissa as int, f as int);
            }
            if rem != 0 {
                return None;
            }
            let q = match mantissa.checked_div(f) {
                Some(q) => q,
                None => {
                    proof {
                        lemma_trunc_div_bound(mantissa as int, f as int);
                        assert(false);
                    }
                    0
                },
            };
            proof {
                lemma_exact_trunc_div(mantissa as int, f as int);
                assert(q * (f as int) == mantissa as int);
                assert((f as int) * q == mantissa as int) by (nonlinear_arith)
                    requires
                        q * (f as int) == mantissa as int,
                ;
                vstd::arithmetic::div_mod::lemma_div_multiples_vanish(q as int, f as int);
            }
            if i64::MIN as i128 <= q && q <= i64::MAX as i128 {
                Some(Decimal { nanos: q as i64 })
            } else {
                None
            }
        }
    }
}

impl Default for Decimal {
    /// The zero amount.
    fn default() -> (r: Decimal)
        ensures
            r.value() == 0,
    {
        Decimal { nanos: 0 }
    }
}

/// For a positive divisor, the truncated remainder of the division
/// operator is zero exactly when the Euclidean remainder is.
proof fn lemma_rem_zero_iff_divides(x: int, d: int)
    requires
        d > 0,
    ensures
        (if x >= 0 {
            x % d
        } else {
            ((x * -1) % d) * -1
        }) == 0 <==> x % d == 0,
{
    if x >= 0 {
    } else {
        let y = x * -1;
        assert(y == -x);
        if y % d == 0 {
            vstd::arithmetic::div_mod::lemma_fundamental_div_mod(y, d);
            assert(y == d * (y / d));
            assert(x == d * (-(y / d))) by (nonlinear_arith)
                requires
                    y == d * (y / d),
                    y == -x,
            ;
            vstd::arithmetic::div_mod::lemma_mod_multiples_basic(-(y / d), d);
        }
        if x % d == 0 {
            vstd::arithmetic::div_mod::lemma_fundamental_div_mod(x, d);
            assert(x == d * (x / d));
            assert(y == d * (-(x / d))) by (nonlinear_arith)
                requires
                    x == d * (x / d),
                    y == -x,
            ;
            vstd::arithmetic::div_mod::lemma_mod_multiples_basic(-(x / d), d);
        }
    }
}

/// The truncated quotient never exceeds the dividend in magnitude.
proof fn lemma_trunc_div_bound(x: int, d: int)
    requires
        d > 1,
    ensures
        (if x >= 0 {
            x / d
        } else {
            ((x * -1) / d) * -1
        }) <= (if x >= 0 {
            x
        } else {
            -x
        }),
        (if x >= 0 {
            x / d
        } else {
            ((x * -1) / d) * -1
        }) >= (if x >= 0 {
            -x
        } else {
            x
        }),
{
    if x >= 0 {
        vstd::arithmetic::div_mod::lemma_div_nonincreasing(x, d);
        vstd::arithmetic::div_mod::lemma_div_pos_is_pos(x, d);
    } else {
        let y = x * -1;
        vstd::arithmetic::div_mod::lemma_div_nonincreasing(y, d);
        vstd::arithmetic::div_mod::lemma_div_pos_is_pos(y, d);
    }
}

/// When the truncated remainder is zero, the truncated quotient times the
/// divisor gives back the dividend exactly.
proof fn lemma_exact_trunc_div(x: int, d: int)
    requires
        d > 0,
        (if x >= 0 {
            x % d
        } else {
            ((x * -1) % d) * -1
        }) == 0,
    ensures
        (if x >= 0 {
            x / d
        } else {
            ((x * -1) / d) * -1
        }) * d == x,
{
    if x >= 0 {
        vstd::arithmetic::div_mod::lemma_fundamental_div_mod(x, d);
    } else {
        let y = x * -1;
        vstd::arithmetic::div_mod::lemma_fundamental_div_mod(y, d);
        assert(y == d * (y / d));
        assert(((y / d) * -1) * d == x) by (nonlinear_arith)
            requires
                y == d * (y / d),
                y == -x,
        ;
    }
}

/// Multiplying by a positive factor keeps the order, in both directions.
proof fn lemma_mul_le_mono(q: int, d: int, lo: int, hi: int)
    requires
        d > 0,
    ensures
        lo <= q <==> lo * d <= q * d,
        q <= hi <==> q * d <= hi * d,
{
    assert((lo <= q <==> lo * d <= q * d) && (q <= hi <==> q * d <= hi * d))
        by (nonlinear_arith)
        requires
            d > 0,
    ;
}

} // verus!

//! Small verified text helpers: building strings from characters,
//! printing numbers in decimal, and prefix tests.
use vstd::prelude::*;
use vstd::string::StrSliceExecFns;

verus! {

/// The decimal digit `d` as a character.
pub open spec fn digit_char(d: int) -> char {
    if d == 0 {
        '0'
    } else if d == 1 {
        '1'
    } else if d == 2 {
        '2'
    } else if d == 3 {
        '3'
    } else if d == 4 {
        '4'
    } else if d == 5 {
        '5'
    } else if d == 6 {
        '6'
    } else if d == 7 {
        '7'
    } else if d == 8 {
        '8'
    } else {
        '9'
    }
}

/// `n` written in decimal, most significant digit first, no sign and no
/// leading zeros (a single `0` for zero).
pub open spec fn dec_str(n: nat) -> Seq<char>
    decreases n,
{
    if n < 10 {
        seq![digit_char(n as int)]
    } else {
        dec_str(n / 10).push(digit_char((n % 10) as int))
    }
}

/// `n` written with exactly two decimal digits (for `n < 100`).
pub open spec fn two_digits(n: nat) -> Seq<char> {
    seq![digit_char((n / 10) as int), digit_char((n % 10) as int)]
}

/// Relies on `String::push`: appends the given character to the string.
#[verifier::external_body]
pub fn push_char(s: &mut String, c: char)
    ensures
        final (s)@ == old(s)@.push(c),
{
    s.push(c);
}

/// A freshly built string holding exactly the characters of `v`.
pub fn string_from_chars(v: &Vec<char>) -> (s: String)
    ensures
        s@ == v@,
{
    let mut s = String::new();
    let mut i: usize = 0;
    while i < v.len()
        invariant
            i <= v.len(),
            s@ == v@.take(i as int),
        decreases v.len() - i,
    {
        push_char(&mut s, v[i]);
        proof {
            assert(v@.take(i + 1 as int) =~= v@.take(i as int).push(v@[i as int]));
        }
        i = i + 1;
    }
    proof {
        assert(v@.take(v@.len() as int) =~= v@);
    }
    s
}

/// The characters of `s`, in order, as a vector.
pub fn chars_of(s: &str) -> (v: Vec<char>)
    ensures
        v@ == s@,
{
    let n = s.unicode_len();
    let mut v: Vec<char> = Vec::new();
    let mut i: usize = 0;
    while i < n
        invariant
            i <= n,
            n == s@.len(),
            v@ == s@.take(i as int),
        decreases n - i,
    {
        let c = s.get_char(i);
        v.push(c);
        proof {
            assert(s@.take(i + 1 as int) =~= s@.take(i as int).push(s@[i as int]));
        }
        i = i + 1;
    }
    proof {
        assert(s@.take(s@.len() as int) =~= s@);
    }
    v
}

/// The decimal digit `d` as a character.
pub fn digit_char_x(d: u64) -> (c: char)
    requires
        d < 10,
    ensures
        c == digit_char(d as int),
{
    if d == 0 {
        '0'
    } else if d == 1 {
        '1'
    } else if d == 2 {
        '2'
    } else if d == 3 {
        '3'
    } else if d == 4 {
        '4'
    } else if d == 5 {
        '5'
    } else if d == 6 {
        '6'
    } else if d == 7 {
        '7'
    } else if d == 8 {
        '8'
    } else {
        '9'
    }
}

/// The digits of `n` in decimal, appended to `out`.
pub fn push_dec_u64(out: &mut Vec<char>, n: u64)
    ensures
        final (out)@ == old(out)@ + dec_str(n as nat),
{
    let mut rev: Vec<char> = Vec::new();
    let mut m: u64 = n;
    while m >= 10
        invariant
            dec_str(n as nat) == dec_str(m as nat) + rev@.reverse(),
        decreases m,
    {
        let d = m % 10;
        rev.push(digit_char_x(d));
        proof {
            assert(rev@.reverse() =~= seq![digit_char(d as int)] + rev@.drop_last().reverse());
            assert(dec_str(m as nat) == dec_str((m / 10) as nat).push(
                digit_char((m % 10) as int),
            ));
            assert(dec_str((m / 10) as nat) + rev@.reverse() =~= dec_str(m as nat)
                + rev@.drop_last().reverse());
        }
        m = m / 10;
    }
    rev.push(digit_char_x(m));
    proof {
        assert(rev@.reverse() =~= seq![digit_char(m as int)] + rev@.drop_last().reverse());
        assert(dec_str(m as nat) =~= seq![digit_char(m as int)]);
        assert(rev@.reverse() =~= dec_str(n as nat));
    }
    let ghost prior = out@;
    let mut j: usize = 0;
    while j < rev.len()
        invariant
            j <= rev.len(),
            rev@.reverse() == dec_str(n as nat),
            out@ == prior + rev@.reverse().take(j as int),
        decreases rev.len() - j,
    {
        let c = rev[rev.len() - 1 - j];
        out.push(c);
        proof {
            assert(rev@.reverse()[j as int] == rev@[rev@.len() - 1 - j]);
            assert(rev@.reverse().take(j + 1 as int) =~= rev@.reverse().take(j as int).push(
                rev@.reverse()[j as int],
            ));
        }
        j = j + 1;
    }
    proof {
        assert(rev@.reverse().take(rev@.len() as int) =~= rev@.reverse());
    }
}

/// Exactly two decimal digits of `n`, appended to `out`.
pub fn push_two_digits(out: &mut Vec<char>, n: u64)
    requires
        n < 100,
    ensures
        final (out)@ == old(out)@ + two_digits(n as nat),
{
    out.push(digit_char_x(n / 10));
    out.push(digit_char_x(n % 10));
    proof {
        assert(old(out)@.push(digit_char((n / 10) as int)).push(digit_char((n % 10) as int))
            =~= old(out)@ + two_digits(n as nat));
    }
}

/// Every character of the string slice `p`, appended to `out`.
pub fn push_str_chars(out: &mut Vec<char>, p: &str)
    ensures
        final (out)@ == old(out)@ + p@,
{
    let n = p.unicode_len();
    let mut i: usize = 0;
    while i < n
        invariant
            i <= n,
            n == p@.len(),
            out@ == old(out)@ + p@.take(i as int),
        decreases n - i,
    {
        let c = p.get_char(i);
        out.push(c);
        proof {
            assert(old(out)@ + p@.take(i + 1 as int) =~= (old(out)@ + p@.take(i as int)).push(
                p@[i as int],
            ));
        }
        i = i + 1;
    }
    proof {
        assert(p@.take(p@.len() as int) =~= p@);
    }
}

/// `c` with an ASCII lower-case letter raised to upper case; any other
/// character is kept as it is.
pub open spec fn upper_ascii(c: char) -> char {
    let u = c as u32;
    if 97 <= u && u <= 122 {
        ((u - 32) as u8) as char
    } else {
        c
    }
}

/// The first three characters of `s` (fewer if it is shorter), ASCII
/// letters raised to upper case.
pub open spec fn prefix_upper3(s: Seq<char>) -> Seq<char> {
    let k = if s.len() < 3 {
        s.len() as int
    } else {
        3
    };
    s.take(k).map_values(|c: char| upper_ascii(c))
}

/// `c` with an ASCII lower-case letter raised to upper case.
pub fn upper_ascii_char(c: char) -> (r: char)
    ensures
        r == upper_ascii(c),
{
    let u = c as u32;
    if 97 <= u && u <= 122 {
        ((u - 32) as u8) as char
    } else {
        c
    }
}

/// The first three characters of `s`, ASCII-upper-cased, as a string.
pub fn prefix3_uppercase(s: &str) -> (r: String)
    ensures
        r@ == prefix_upper3(s@),
{
    let n = s.unicode_len();
    let k = if n < 3 {
        n
    } else {
        3
    };
    let mut out: Vec<char> = Vec::new();
    let mut i: usize = 0;
    while i < k
        invariant
            i <= k,
            k == (if s@.len() < 3 {
                s@.len() as int
            } else {
                3
            }),
            out@.len() == i,
            forall|j: int| 0 <= j < i ==> out@[j] == upper_ascii(s@[j]),
        decreases k - i,
    {
        let c = s.get_char(i);
        out.push(upper_ascii_char(c));
        i = i + 1;
    }
    proof {
        assert(out@ =~= prefix_upper3(s@));
    }
    string_from_chars(&out)
}

/// Whether `s` begins with the characters of `p`.
pub fn str_starts_with(s: &String, p: &String) -> (r: bool)
    ensures
        r == p@.is_prefix_of(s@),
{
    let sl = s.as_str().unicode_len();
    let pl = p.as_str().unicode_len();
    if pl > sl {
        proof {
            assert(!p@.is_prefix_of(s@));
        }
        return false;
    }
    let mut i: usize = 0;
    while i < pl
        invariant
            i <= pl,
            pl == p@.len(),
            pl <= s@.len(),
            forall|k: int| 0 <= k < i ==> s@[k] == p@[k],
        decreases pl - i,
    {
        if s.as_str().get_char(i) != p.as_str().get_char(i) {
            proof {
                assert(s@.take(pl as int)[i as int] != p@[i as int]);
            }
            return false;
        }
        i = i + 1;
    }
    proof {
        assert(s@.take(pl as int) =~= p@);
    }
    true
}

} // verus!

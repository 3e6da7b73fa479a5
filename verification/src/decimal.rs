//! Decimal text for integers and for milli-unit fixed-point values.
//!
//! The settle fingerprint and the status line need a canonical, fully
//! specified rendering of numbers: `dec_str` is the mathematical decimal
//! form of a natural number, `milli_str` the three-decimal form of a
//! milli-unit value, and the executable functions are proved to produce
//! exactly those character sequences.

use vstd::prelude::*;

verus! {

/// The decimal digit character for `d` in `0 ..= 9`.
pub open spec fn digit_char(d: int) -> char {
    if d == 0 {
        '0'
    } else if d == 1 {
        '1'
    } else if d == 2 {
        '2'
    } else if d == 3 {
        '3'
    } else if d == 4 {
        '4'
    } else if d == 5 {
        '5'
    } else if d == 6 {
        '6'
    } else if d == 7 {
        '7'
    } else if d == 8 {
        '8'
    } else {
        '9'
    }
}

/// The decimal rendering of `n`, most significant digit first, with no
/// leading zeros (a single `'0'` for zero).
pub open spec fn dec_str(n: nat) -> Seq<char>
    decreases n,
{
    if n < 10 {
        seq![digit_char(n as int)]
    } else {
        dec_str(n / 10) + seq![digit_char((n % 10) as int)]
    }
}

/// The rendering of a nonnegative milli-unit value `m`: the whole part in
/// decimal, a dot, then exactly three fractional digits.
pub open spec fn milli_str_nonneg(m: int) -> Seq<char>
    recommends
        m >= 0,
{
    dec_str((m / 1000) as nat) + seq!['.', digit_char((m / 100) % 10), digit_char((m / 10) % 10), digit_char(m % 10)]
}

/// The rendering of a milli-unit value: a minus sign for negative values,
/// then the rendering of the magnitude.
pub open spec fn milli_str(v: int) -> Seq<char> {
    if v < 0 {
        seq!['-'] + milli_str_nonneg(-v)
    } else {
        milli_str_nonneg(v)
    }
}

/// The one-character string literal for digit `d`.
fn digit_literal(d: u64) -> (s: &'static str)
    requires
        d < 10,
    ensures
        s@ == seq![digit_char(d as int)],
{
    let s: &'static str = if d == 0 {
        "0"
    } else if d == 1 {
        "1"
    } else if d == 2 {
        "2"
    } else if d == 3 {
        "3"
    } else if d == 4 {
        "4"
    } else if d == 5 {
        "5"
    } else if d == 6 {
        "6"
    } else if d == 7 {
        "7"
    } else if d == 8 {
        "8"
    } else {
        "9"
    };
    proof {
        reveal_strlit("0");
        reveal_strlit("1");
        reveal_strlit("2");
        reveal_strlit("3");
        reveal_strlit("4");
        reveal_strlit("5");
        reveal_strlit("6");
        reveal_strlit("7");
        reveal_strlit("8");
        reveal_strlit("9");
        assert(s@ =~= seq![digit_char(d as int)]);
    }
    s
}

/// Renders `n` in decimal, exactly as `dec_str` describes.
pub fn u64_to_string(n: u64) -> (s: String)
    ensures
        s@ == dec_str(n as nat),
    decreases n,
{
    if n < 10 {
        String::from_str(digit_literal(n))
    } else {
        let mut s = u64_to_string(n / 10);
        s.append(digit_literal(n % 10));
        proof {
            assert(s@ =~= dec_str(n as nat));
        }
        s
    }
}

/// Renders a milli-unit value with three decimals, exactly as `milli_str`
/// describes.
pub fn milli_to_string(v: i64) -> (s: String)
    requires
        v > i64::MIN,
    ensures
        s@ == milli_str(v as int),
{
    let m: u64 = if v >= 0 {
        v as u64
    } else {
        (-v) as u64
    };
    let mut s = if v < 0 {
        String::from_str("-")
    } else {
        String::new()
    };
    s.append(u64_to_string(m / 1000).as_str());
    s.append(".");
    s.append(digit_literal((m / 100) % 10));
    s.append(digit_literal((m / 10) % 10));
    s.append(digit_literal(m % 10));
    proof {
        reveal_strlit("-");
        reveal_strlit(".");
        assert(s@ =~= milli_str(v as int));
    }
    s
}

} // verus!

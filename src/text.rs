//! Decimal rendering of integers and of fixed-point doubles.
use vstd::prelude::*;

verus! {

/// Number of units of a double in 1.0: doubles are held as fixed-point
/// decimals with six fractional digits.
pub const DOUBLE_ONE: i64 = 1_000_000;

pub open spec fn digit_char(d: int) -> char {
    if d == 0 {
        '0'
    } else if d == 1 {
        '1'
    } else if d == 2 {
        '2'
    } else if d == 3 {
        '3'
    } else if d == 4 {
        '4'
    } else if d == 5 {
        '5'
    } else if d == 6 {
        '6'
    } else if d == 7 {
        '7'
    } else if d == 8 {
        '8'
    } else {
        '9'
    }
}

/// The decimal digits of `n`, most significant first, without leading zeros.
pub open spec fn nat_digits(n: nat) -> Seq<char>
    decreases n,
{
    if n < 10 {
        seq![digit_char(n as int)]
    } else {
        nat_digits(n / 10).push(digit_char((n % 10) as int))
    }
}

/// The decimal text of an integer, with a leading `-` when negative.
pub open spec fn int_text(i: int) -> Seq<char> {
    if i < 0 {
        seq!['-'] + nat_digits((-i) as nat)
    } else {
        nat_digits(i as nat)
    }
}

/// The last `width` decimal digits of `n`, padded with leading zeros.
pub open spec fn padded_digits(n: nat, width: nat) -> Seq<char>
    decreases width,
{
    if width == 0 {
        Seq::empty()
    } else {
        padded_digits(n / 10, (width - 1) as nat).push(digit_char((n % 10) as int))
    }
}

/// The fractional digits `f` (of `width` places) without trailing zeros.
pub open spec fn frac_digits(f: nat, width: nat) -> Seq<char>
    decreases width,
{
    if width > 0 && f % 10 == 0 {
        frac_digits(f / 10, (width - 1) as nat)
    } else {
        padded_digits(f, width)
    }
}

/// The text of a non-negative fixed-point magnitude: whole part, then a point
/// and the fractional digits when the fraction is not zero.
pub open spec fn magnitude_text(m: nat) -> Seq<char> {
    let whole = m / (DOUBLE_ONE as nat);
    let frac = m % (DOUBLE_ONE as nat);
    if frac == 0 {
        nat_digits(whole)
    } else {
        nat_digits(whole) + seq!['.'] + frac_digits(frac, 6)
    }
}

/// The text of a double held as `units` millionths.
pub open spec fn double_text(units: int) -> Seq<char> {
    if units < 0 {
        seq!['-'] + magnitude_text((-units) as nat)
    } else {
        magnitude_text(units as nat)
    }
}

pub fn digit_of(d: u64) -> (c: char)
    requires
        d < 10,
    ensures
        c == digit_char(d as int),
{
    if d == 0 {
        '0'
    } else if d == 1 {
        '1'
    } else if d == 2 {
        '2'
    } else if d == 3 {
        '3'
    } else if d == 4 {
        '4'
    } else if d == 5 {
        '5'
    } else if d == 6 {
        '6'
    } else if d == 7 {
        '7'
    } else if d == 8 {
        '8'
    } else {
        '9'
    }
}

pub fn push_nat_digits(n: u64, out: &mut Vec<char>)
    ensures
        final(out)@ == old(out)@ + nat_digits(n as nat),
    decreases n,
{
    if n >= 10 {
        push_nat_digits(n / 10, out);
    }
    out.push(digit_of(n % 10));
    proof {
        assert(final(out)@ =~= old(out)@ + nat_digits(n as nat));
    }
}

/// Magnitude of an `i64` as a `u64`, without overflow for `i64::MIN`.
pub fn magnitude(i: i64) -> (r: u64)
    ensures
        r as int == if i < 0 { -(i as int) } else { i as int },
{
    if i < 0 {
        (-(i as i128)) as u64
    } else {
        i as u64
    }
}

pub fn push_int_text(i: i64, out: &mut Vec<char>)
    ensures
        final(out)@ == old(out)@ + int_text(i as int),
{
    if i < 0 {
        out.push('-');
    }
    push_nat_digits(magnitude(i), out);
    proof {
        assert(final(out)@ =~= old(out)@ + int_text(i as int));
    }
}

pub fn push_padded_digits(n: u64, width: u64, out: &mut Vec<char>)
    ensures
        final(out)@ == old(out)@ + padded_digits(n as nat, width as nat),
    decreases width,
{
    if width > 0 {
        push_padded_digits(n / 10, width - 1, out);
        out.push(digit_of(n % 10));
    }
    proof {
        assert(final(out)@ =~= old(out)@ + padded_digits(n as nat, width as nat));
    }
}

pub fn push_frac_digits(f: u64, width: u64, out: &mut Vec<char>)
    ensures
        final(out)@ == old(out)@ + frac_digits(f as nat, width as nat),
    decreases width,
{
    if width > 0 && f % 10 == 0 {
        push_frac_digits(f / 10, width - 1, out);
    } else {
        push_padded_digits(f, width, out);
    }
}

pub fn push_double_text(units: i64, out: &mut Vec<char>)
    ensures
        final(out)@ == old(out)@ + double_text(units as int),
{
    if units < 0 {
        out.push('-');
    }
    let m = magnitude(units);
    let whole = m / (DOUBLE_ONE as u64);
    let frac = m % (DOUBLE_ONE as u64);
    push_nat_digits(whole, out);
    if frac != 0 {
        out.push('.');
        push_frac_digits(frac, 6, out);
    }
    proof {
        assert(final(out)@ =~= old(out)@ + double_text(units as int));
    }
}

/// Appends the characters of `lit`.
pub fn push_lit(lit: &str, out: &mut Vec<char>)
    ensures
        final(out)@ == old(out)@ + lit@,
{
    let n = lit.unicode_len();
    let mut i: usize = 0;
    while i < n
        invariant
            n == lit@.len(),
            i <= n,
            out@ == old(out)@ + lit@.subrange(0, i as int),
        decreases n - i,
    {
        out.push(lit.get_char(i));
        i += 1;
        proof {
            assert(out@ =~= old(out)@ + lit@.subrange(0, i as int));
        }
    }
    proof {
        assert(lit@.subrange(0, n as int) =~= lit@);
    }
}

} // verus!

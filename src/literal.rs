//! The values of number literals.
use vstd::prelude::*;
use crate::text::DOUBLE_ONE;

verus! {

pub open spec fn digit_value(c: char) -> int {
    c as int - '0' as int
}

pub open spec fn all_digits(s: Seq<char>) -> bool {
    forall|i: int| 0 <= i < s.len() ==> '0' <= #[trigger] s[i] <= '9'
}

/// The number that a sequence of decimal digits writes.
pub open spec fn digits_value(s: Seq<char>) -> int
    decreases s.len(),
{
    if s.len() == 0 {
        0
    } else {
        digits_value(s.drop_last()) * 10 + digit_value(s.last())
    }
}

/// The first six fractional digits, with zeros added when there are fewer.
pub open spec fn six_places(s: Seq<char>) -> Seq<char> {
    if s.len() >= 6 {
        s.subrange(0, 6)
    } else {
        s + Seq::new((6 - s.len()) as nat, |i: int| '0')
    }
}

/// The value of an integer literal, when it fits in 64 bits.
pub open spec fn int_literal(s: Seq<char>) -> Option<i64> {
    if all_digits(s) && digits_value(s) <= i64::MAX {
        Some(digits_value(s) as i64)
    } else {
        None
    }
}

/// The value, in millionths, of a double literal `whole.frac`: digits beyond
/// the sixth fractional place are dropped.
pub open spec fn double_literal(whole: Seq<char>, frac: Seq<char>) -> Option<i64> {
    let v = digits_value(whole) * DOUBLE_ONE + digits_value(six_places(frac));
    if all_digits(whole) && all_digits(frac) && v <= i64::MAX {
        Some(v as i64)
    } else {
        None
    }
}

pub open spec fn capped(x: int) -> int {
    if x > i64::MAX { i64::MAX + 1 } else { x }
}

proof fn lemma_digits_nonneg(s: Seq<char>)
    requires
        all_digits(s),
    ensures
        digits_value(s) >= 0,
    decreases s.len(),
{
    if s.len() > 0 {
        assert(all_digits(s.drop_last()));
        lemma_digits_nonneg(s.drop_last());
    }
}

/// The value of `s`, capped just above `i64::MAX`, when all are digits.
fn capped_digits(s: &Vec<char>) -> (r: Option<u128>)
    ensures
        r is Some <==> all_digits(s@),
        r is Some ==> r->Some_0 as int == capped(digits_value(s@)),
{
    let mut v: u128 = 0;
    let mut i: usize = 0;
    while i < s.len()
        invariant
            i <= s.len(),
            all_digits(s@.subrange(0, i as int)),
            v as int == capped(digits_value(s@.subrange(0, i as int))),
            v <= i64::MAX as u128 + 1,
        decreases s.len() - i,
    {
        let c = s[i];
        if c < '0' || c > '9' {
            proof {
                assert(!('0' <= s@[i as int] <= '9'));
            }
            return None;
        }
        let d = (c as u32 - '0' as u32) as u128;
        let ghost pre = s@.subrange(0, i as int);
        let ghost next = s@.subrange(0, i + 1);
        proof {
            assert(next.drop_last() =~= pre);
            assert(next.last() == c);
            lemma_digits_nonneg(pre);
            let x = digits_value(pre);
            assert(capped(capped(x) * 10 + d) == capped(x * 10 + d)) by (nonlinear_arith)
                requires x >= 0, d >= 0, d <= 9;
            assert(all_digits(next));
        }
        let w = v * 10 + d;
        v = if w > i64::MAX as u128 { i64::MAX as u128 + 1 } else { w };
        i += 1;
    }
    proof {
        assert(s@.subrange(0, i as int) =~= s@);
    }
    Some(v)
}

/// The value of an integer literal's digits, or `None` when it does not fit
/// in an `i64`.
pub fn int_literal_value(s: &Vec<char>) -> (r: Option<i64>)
    ensures
        r == int_literal(s@),
{
    match capped_digits(s) {
        Some(v) => {
            if v <= i64::MAX as u128 {
                Some(v as i64)
            } else {
                None
            }
        },
        None => None,
    }
}

/// The value in millionths of a double literal's text `whole.frac`.
pub fn double_literal_value(whole: &Vec<char>, frac: &Vec<char>) -> (r: Option<i64>)
    ensures
        r == double_literal(whole@, frac@),
{
    let mut six: Vec<char> = Vec::new();
    let mut i: usize = 0;
    while i < 6
        invariant
            i <= 6,
            six@ == six_places(frac@).subrange(0, i as int),
        decreases 6 - i,
    {
        six.push(if i < frac.len() { frac[i] } else { '0' });
        i += 1;
        proof {
            assert(six@ =~= six_places(frac@).subrange(0, i as int));
        }
    }
    proof {
        assert(six@ =~= six_places(frac@));
    }
    let w = capped_digits(whole);
    let f = capped_digits(&six);
    let fd = capped_digits(frac);
    match (w, f, fd) {
        (Some(wv), Some(fv), Some(_)) => {
            proof {
                lemma_digits_nonneg(whole@);
                lemma_digits_nonneg(six@);
                lemma_six_places_small(six@);
            }
            if wv > i64::MAX as u128 {
                proof {
                    assert(digits_value(whole@) * DOUBLE_ONE > i64::MAX) by (nonlinear_arith)
                        requires digits_value(whole@) > i64::MAX;
                }
                return None;
            }
            let v = wv * (DOUBLE_ONE as u128) + fv;
            if v <= i64::MAX as u128 {
                Some(v as i64)
            } else {
                None
            }
        },
        _ => {
            proof {
                if all_digits(frac@) {
                    assert forall|k: int| 0 <= k < six@.len() implies '0' <= #[trigger] six@[k] <= '9' by {
                        if k < frac@.len() {
                            assert(six@[k] == frac@[k]);
                        }
                    }
                }
            }
            None
        },
    }
}

pub open spec fn pow10(n: nat) -> int
    decreases n,
{
    if n == 0 { 1 } else { 10 * pow10((n - 1) as nat) }
}

proof fn lemma_six_places_small(s: Seq<char>)
    requires
        s.len() == 6,
        all_digits(s),
    ensures
        digits_value(s) < DOUBLE_ONE,
{
    lemma_digits_below(s);
    reveal_with_fuel(pow10, 7);
    assert(pow10(6) == 1_000_000);
}

proof fn lemma_digits_below(s: Seq<char>)
    requires
        all_digits(s),
    ensures
        digits_value(s) < pow10(s.len()),
        digits_value(s) >= 0,
    decreases s.len(),
{
    if s.len() > 0 {
        assert(all_digits(s.drop_last()));
        lemma_digits_below(s.drop_last());
        let p = pow10((s.len() - 1) as nat);
        let x = digits_value(s.drop_last());
        let d = digit_value(s.last());
        assert(0 <= d <= 9);
        assert(x * 10 + d < p * 10) by (nonlinear_arith)
            requires x < p, 0 <= d <= 9;
    }
}

} // verus!

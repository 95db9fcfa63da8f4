//! Decimal rendering for the score and coin displays: a number becomes
//! the digit string that parsing maps back to the same number, and a
//! milli-coin amount splits into the whole part and two decimal digits.

use vstd::prelude::*;
use crate::score::{digits_value, is_digits, parse_score_spec};

verus! {

/// Ten to the n-th.
pub open spec fn pow10(n: nat) -> int
    decreases n,
{
    if n == 0 {
        1
    } else {
        10 * pow10((n - 1) as nat)
    }
}

/// Prepending a digit adds its value at the current magnitude.
proof fn lemma_prepend_digit(c: u8, v: Seq<u8>)
    ensures
        digits_value(seq![c] + v) == (c - 48) * pow10(v.len()) + digits_value(v),
    decreases v.len(),
{
    if v.len() == 0 {
        assert((seq![c] + v) =~= seq![c]);
        assert(seq![c].drop_last() =~= Seq::<u8>::empty());
        assert(digits_value(Seq::<u8>::empty()) == 0);
        assert(seq![c].last() == c);
        assert(digits_value(seq![c]) == digits_value(seq![c].drop_last()) * 10 + (seq![c].last()
            - 48));
        assert(pow10(v.len()) == 1);
    } else {
        assert((seq![c] + v).drop_last() =~= seq![c] + v.drop_last());
        assert((seq![c] + v).last() == v.last());
        lemma_prepend_digit(c, v.drop_last());
        assert(((c - 48) * pow10(v.drop_last().len()) + digits_value(v.drop_last())) * 10 + (
        v.last() - 48) == (c - 48) * pow10(v.len()) + digits_value(v)) by (nonlinear_arith)
            requires
                pow10(v.len()) == 10 * pow10(v.drop_last().len()),
                digits_value(v) == digits_value(v.drop_last()) * 10 + (v.last() - 48),
        {};
    }
}

/// Render a number as its decimal digit string; parsing it gives the
/// number back.
pub fn decimal_digits(n: usize) -> (r: Vec<u8>)
    ensures
        is_digits(r@),
        digits_value(r@) == n,
        parse_score_spec(r@) == n,
{
    let mut rem: usize = n;
    let mut v: Vec<u8> = Vec::new();
    while rem > 0
        invariant
            digits_value(v@) + rem * pow10(v@.len()) == n,
            forall|i: int| 0 <= i < v@.len() ==> 48 <= #[trigger] v@[i] <= 57,
            (rem == 0 && n > 0) ==> v@.len() > 0,
            rem <= n,
        decreases rem,
    {
        let d: u8 = (rem % 10) as u8;
        let b: u8 = 48 + d;
        let ghost vprev = v@;
        let ghost remprev = rem as int;
        proof {
            lemma_prepend_digit(b, vprev);
            vstd::arithmetic::div_mod::lemma_fundamental_div_mod(rem as int, 10);
        }
        v.insert(0, b);
        rem = rem / 10;
        proof {
            assert(v@ =~= seq![b] + vprev);
            assert(pow10(v@.len()) == 10 * pow10(vprev.len()));
            assert((remprev % 10) * pow10(vprev.len()) + (remprev / 10) * (10 * pow10(
                vprev.len(),
            )) == remprev * pow10(vprev.len())) by (nonlinear_arith)
                requires
                    remprev == 10 * (remprev / 10) + remprev % 10,
            {};
        }
    }
    if v.len() == 0 {
        v.push(48);
        proof {
            assert(v@.drop_last() =~= Seq::<u8>::empty());
        }
    }
    v
}

/// Whole coins in a milli-coin amount.
pub fn coins_whole(coins: i64) -> (r: i64)
    requires
        coins >= 0,
    ensures
        r == coins / 1000,
{
    ((coins as u64) / 1000) as i64
}

/// The two decimal digits shown after the point for a milli-coin amount.
pub fn coins_cents(coins: i64) -> (r: i64)
    requires
        coins >= 0,
    ensures
        r == (coins % 1000) / 10,
        0 <= r < 100,
{
    let c = (((coins as u64) % 1000) / 10) as i64;
    c
}

} // verus!

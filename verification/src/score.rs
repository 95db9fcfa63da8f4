//! The persisted high score: parsing the stored text and deciding when
//! to overwrite it. Reading and writing the file itself is the outside
//! collaborator's job; a missing or malformed value counts as zero.

use vstd::prelude::*;
use crate::game::Game;

verus! {

/// Whether the bytes are one or more ASCII decimal digits.
pub open spec fn is_digits(s: Seq<u8>) -> bool {
    s.len() > 0 && forall|i: int| 0 <= i < s.len() ==> 48 <= #[trigger] s[i] <= 57
}

/// The number the digit string denotes.
pub open spec fn digits_value(s: Seq<u8>) -> int
    decreases s.len(),
{
    if s.len() == 0 {
        0
    } else {
        digits_value(s.drop_last()) * 10 + (s.last() - 48)
    }
}

/// What a stored high score means: its decimal value when it is a plain
/// digit string in range, and zero in every other case.
pub open spec fn parse_score_spec(s: Seq<u8>) -> int {
    if is_digits(s) && digits_value(s) <= usize::MAX {
        digits_value(s)
    } else {
        0
    }
}

/// A digit string's value is never negative.
proof fn lemma_digits_nonneg(s: Seq<u8>)
    requires
        forall|i: int| 0 <= i < s.len() ==> 48 <= #[trigger] s[i] <= 57,
    ensures
        digits_value(s) >= 0,
    decreases s.len(),
{
    if s.len() > 0 {
        assert(forall|i: int|
            0 <= i < s.drop_last().len() ==> 48 <= #[trigger] s.drop_last()[i] <= 57);
        lemma_digits_nonneg(s.drop_last());
        assert(digits_value(s.drop_last()) * 10 >= 0) by (nonlinear_arith)
            requires
                digits_value(s.drop_last()) >= 0,
        {};
    }
}

/// Appending digits never shrinks the value.
proof fn lemma_digits_extend(s: Seq<u8>, i: int)
    requires
        0 <= i <= s.len(),
        forall|k: int| 0 <= k < s.len() ==> 48 <= #[trigger] s[k] <= 57,
    ensures
        digits_value(s) >= digits_value(s.take(i)),
    decreases s.len() - i,
{
    if i == s.len() {
        assert(s.take(i) =~= s);
    } else {
        assert(s.take(i + 1).drop_last() =~= s.take(i));
        assert(s.take(i + 1).last() == s[i]);
        assert(forall|k: int| 0 <= k < s.take(i).len() ==> 48 <= #[trigger] s.take(i)[k] <= 57);
        lemma_digits_nonneg(s.take(i));
        assert(digits_value(s.take(i + 1)) >= digits_value(s.take(i))) by (nonlinear_arith)
            requires
                digits_value(s.take(i + 1)) == digits_value(s.take(i)) * 10 + (s[i] - 48),
                digits_value(s.take(i)) >= 0,
                48 <= s[i] <= 57,
        {};
        lemma_digits_extend(s, i + 1);
    }
}

/// Parse the stored high score: the denoted number for a digit string
/// whose value fits, and zero for an empty, malformed or overlong one.
pub fn parse_score(bytes: &Vec<u8>) -> (r: usize)
    ensures
        r == parse_score_spec(bytes@),
{
    let n = bytes.len();
    let mut i: usize = 0;
    let mut acc: u128 = 0;
    proof {
        assert(bytes@.take(0int) =~= Seq::<u8>::empty());
    }
    while i < n
        invariant
            0 <= i <= n,
            n == bytes@.len(),
            acc == digits_value(bytes@.take(i as int)),
            acc <= usize::MAX,
            forall|k: int| 0 <= k < i ==> 48 <= #[trigger] bytes@[k] <= 57,
        decreases n - i,
    {
        let b = bytes[i];
        if b < 48 || b > 57 {
            return 0;
        }
        let acc2: u128 = acc * 10 + ((b - 48) as u128);
        proof {
            assert(bytes@.take(i as int + 1).drop_last() =~= bytes@.take(i as int));
            assert(bytes@.take(i as int + 1).last() == bytes@[i as int]);
        }
        if acc2 > usize::MAX as u128 {
            proof {
                if is_digits(bytes@) {
                    lemma_digits_extend(bytes@, i as int + 1);
                }
            }
            return 0;
        }
        acc = acc2;
        i = i + 1;
    }
    proof {
        assert(bytes@.take(n as int) =~= bytes@);
    }
    if n == 0 {
        0
    } else {
        acc as usize
    }
}

/// Decide whether the running score beats the stored best; the returned
/// value, when present, is what should be persisted.
pub fn update_high_score(game: &Game, stored_best: usize) -> (r: Option<usize>)
    ensures
        r == (if game.score > stored_best {
            Option::Some(game.score)
        } else {
            Option::<usize>::None
        }),
{
    if game.score > stored_best {
        Option::Some(game.score)
    } else {
        Option::None
    }
}

} // verus!

//! The three-component numeric version shape.

use vstd::prelude::*;
use crate::text::{piece_views, split_chars, split_on};

verus! {

/// The largest value a version component may have: the largest 32-bit
/// unsigned integer.
pub open spec fn max_component() -> nat {
    u32::MAX as nat
}

/// Whether `c` is one of the ten decimal digits `0` to `9`.
pub open spec fn is_decimal_digit(c: char) -> bool {
    '0' <= c && c <= '9'
}

/// The number that a decimal digit stands for; 0 for any other character.
pub open spec fn digit_value(c: char) -> nat {
    if is_decimal_digit(c) {
        (c as int - '0' as int) as nat
    } else {
        0
    }
}

/// Whether every character of `digits` is a decimal digit.
pub open spec fn all_decimal_digits(digits: Seq<char>) -> bool {
    forall|i: int| 0 <= i < digits.len() ==> is_decimal_digit(#[trigger] digits[i])
}

/// The number written by `digits` in base ten, most significant digit first.
pub open spec fn decimal_value(digits: Seq<char>) -> nat
    decreases digits.len(),
{
    if digits.len() == 0 {
        0
    } else {
        10 * decimal_value(digits.drop_last()) + digit_value(digits.last())
    }
}

/// What is left of `text` once one leading `+` sign, if there is one, is taken off.
pub open spec fn unsigned_digits(text: Seq<char>) -> Seq<char> {
    if text.len() > 0 && text[0] == '+' {
        text.subrange(1, text.len() as int)
    } else {
        text
    }
}

/// Whether `text` is the decimal notation of an integer from 0 to
/// `max_component()`: an optional `+` sign and then at least one decimal
/// digit, with nothing before, between or after. Leading zeros are allowed.
pub open spec fn is_component(text: Seq<char>) -> bool {
    let digits = unsigned_digits(text);
    &&& digits.len() > 0
    &&& all_decimal_digits(digits)
    &&& decimal_value(digits) <= max_component()
}

/// Whether `version` has the shape `major.minor.patch`: split at its dots it
/// has exactly three pieces, and each piece is a component.
pub open spec fn is_semver(version: Seq<char>) -> bool {
    let pieces = split_on(version, '.');
    &&& pieces.len() == 3
    &&& is_component(pieces[0])
    &&& is_component(pieces[1])
    &&& is_component(pieces[2])
}

/// Appending digits never makes the written number smaller.
pub proof fn lemma_decimal_value_grows(digits: Seq<char>, n: int)
    requires
        0 <= n <= digits.len(),
    ensures
        decimal_value(digits.take(n)) <= decimal_value(digits),
    decreases digits.len(),
{
    if n == digits.len() {
        assert(digits.take(n) =~= digits);
    } else {
        lemma_decimal_value_grows(digits.drop_last(), n);
        assert(digits.drop_last().take(n) =~= digits.take(n));
    }
}

/// The empty text is not a version.
pub proof fn lemma_empty_is_not_semver()
    ensures
        !is_semver(Seq::<char>::empty()),
{
}

/// Decides whether `text` is a component.
pub fn is_component_chars(text: &Vec<char>) -> (ok: bool)
    ensures
        ok == is_component(text@),
{
    let n = text.len();
    let start: usize = if n > 0 && text[0] == '+' { 1 } else { 0 };
    let ghost digits = unsigned_digits(text@);
    assert(digits =~= text@.subrange(start as int, n as int));
    if start == n {
        return false;
    }
    let mut value: u64 = 0;
    let mut i: usize = start;
    assert(digits.take(0) =~= Seq::<char>::empty());
    while i < n
        invariant
            n == text@.len(),
            start <= i <= n,
            digits == unsigned_digits(text@),
            digits == text@.subrange(start as int, n as int),
            all_decimal_digits(digits.take(i - start)),
            value == decimal_value(digits.take(i - start)),
            value <= max_component(),
        decreases n - i,
    {
        let c = text[i];
        assert(digits[i - start] == c);
        if !('0' <= c && c <= '9') {
            return false;
        }
        let ghost seen = digits.take(i - start);
        let ghost next = digits.take(i + 1 - start);
        proof {
            assert(next.drop_last() =~= seen);
            assert(next.last() == c);
            assert forall|k: int| 0 <= k < next.len() implies is_decimal_digit(
                #[trigger] next[k],
            ) by {
                if k < seen.len() {
                    assert(next[k] == seen[k]);
                }
            }
        }
        let digit: u64 = (c as u64) - ('0' as u64);
        value = value * 10 + digit;
        if value > u32::MAX as u64 {
            proof {
                lemma_decimal_value_grows(digits, i + 1 - start);
            }
            return false;
        }
        i = i + 1;
    }
    assert(digits.take(n - start) =~= digits);
    true
}

/// Decides whether `version` is a three-component numeric version.
pub fn is_valid_semver(version: &str) -> (ok: bool)
    ensures
        ok == is_semver(version@),
{
    let pieces = split_chars(version, '.');
    assert(piece_views(pieces@).len() == pieces@.len());
    if pieces.len() != 3 {
        return false;
    }
    assert(piece_views(pieces@)[0] == pieces@[0]@);
    assert(piece_views(pieces@)[1] == pieces@[1]@);
    assert(piece_views(pieces@)[2] == pieces@[2]@);
    is_component_chars(&pieces[0]) && is_component_chars(&pieces[1]) && is_component_chars(
        &pieces[2],
    )
}

} // verus!

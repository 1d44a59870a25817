//! Decimal notation for natural numbers: which strings are literals, what a
//! literal denotes, and how a number is written.

use vstd::prelude::*;

verus! {

/// Whether `c` is one of the ten ASCII digits.
pub open spec fn is_digit(c: char) -> bool {
    '0' <= c <= '9'
}

/// The number a digit stands for.
pub open spec fn digit_value(c: char) -> nat
    recommends
        is_digit(c),
{
    (c as u32 - '0' as u32) as nat
}

/// The digit that stands for `d`.
pub open spec fn digit_char(d: nat) -> char
    recommends
        d < 10,
{
    (d + '0' as u32) as u8 as char
}

/// Whether every character of `s` is a digit.
pub open spec fn all_digits(s: Seq<char>) -> bool {
    forall|i: int| 0 <= i < s.len() ==> is_digit(#[trigger] s[i])
}

/// Whether `s` is a decimal literal: one digit or more, and no zero in front
/// of another digit. `"0"` is a literal; `""`, `"007"` and `"+1"` are not.
pub open spec fn is_decimal_literal(s: Seq<char>) -> bool {
    &&& s.len() > 0
    &&& all_digits(s)
    &&& (s.len() == 1 || s[0] != '0')
}

/// The number that a string of digits denotes, most significant digit
/// first. The empty string denotes zero.
pub open spec fn decimal_value(s: Seq<char>) -> nat
    decreases s.len(),
{
    if s.len() == 0 {
        0
    } else {
        decimal_value(s.drop_last()) * 10 + digit_value(s.last())
    }
}

/// The digits of `n`, most significant first, with no zero in front. Zero
/// has no digits at all.
pub open spec fn decimal_digits(n: nat) -> Seq<char>
    decreases n,
{
    if n == 0 {
        Seq::empty()
    } else {
        decimal_digits(n / 10).push(digit_char(n % 10))
    }
}

/// A number as the library writes it: its digits, and the one digit `0` for
/// zero.
pub open spec fn decimal_text(n: nat) -> Seq<char> {
    if n == 0 {
        seq!['0']
    } else {
        decimal_digits(n)
    }
}

/// Ten to the power `k`.
pub open spec fn pow10(k: nat) -> nat
    decreases k,
{
    if k == 0 {
        1
    } else {
        10 * pow10((k - 1) as nat)
    }
}

/// A digit and its number determine each other.
pub proof fn lemma_digit_round_trip(d: nat)
    requires
        d < 10,
    ensures
        is_digit(digit_char(d)),
        digit_value(digit_char(d)) == d,
        (digit_char(d) == '0') == (d == 0),
{
}

/// Writing a number uses digits only and puts no zero in front.
pub proof fn lemma_digits_shape(n: nat)
    ensures
        all_digits(decimal_digits(n)),
        (decimal_digits(n).len() == 0) == (n == 0),
        n > 0 ==> decimal_digits(n)[0] != '0',
    decreases n,
{
    if n > 0 {
        lemma_digits_shape(n / 10);
        lemma_digit_round_trip(n % 10);
        let front = decimal_digits(n / 10);
        let whole = decimal_digits(n);
        assert(whole == front.push(digit_char(n % 10)));
        assert forall|i: int| 0 <= i < whole.len() implies is_digit(#[trigger] whole[i]) by {
            if i < front.len() {
                assert(whole[i] == front[i]);
            }
        }
        if n / 10 > 0 {
            assert(whole[0] == front[0]);
        }
    }
}

/// Reading back what was written gives the number again.
pub proof fn lemma_value_of_digits(n: nat)
    ensures
        decimal_value(decimal_digits(n)) == n,
    decreases n,
{
    if n > 0 {
        lemma_value_of_digits(n / 10);
        lemma_digit_round_trip(n % 10);
        let front = decimal_digits(n / 10);
        let whole = front.push(digit_char(n % 10));
        assert(whole.drop_last() == front);
        assert(whole.last() == digit_char(n % 10));
    }
}

/// A positive number is written as a decimal literal that denotes it.
pub proof fn lemma_digits_are_literal(n: nat)
    requires
        n > 0,
    ensures
        is_decimal_literal(decimal_digits(n)),
        decimal_value(decimal_digits(n)) == n,
{
    lemma_digits_shape(n);
    lemma_value_of_digits(n);
}

/// Every number is written as a decimal literal that denotes it.
pub proof fn lemma_text_is_literal(n: nat)
    ensures
        is_decimal_literal(decimal_text(n)),
        decimal_value(decimal_text(n)) == n,
{
    if n == 0 {
        let zero = seq!['0'];
        assert(zero.drop_last().len() == 0);
        assert(decimal_value(zero.drop_last()) == 0);
        assert(decimal_value(zero) == 0);
    } else {
        lemma_digits_are_literal(n);
    }
}

/// A number below ten to the `k` is written with at most `k` digits.
pub proof fn lemma_digits_len(n: nat, k: nat)
    requires
        n < pow10(k),
    ensures
        decimal_digits(n).len() <= k,
    decreases n,
{
    if n > 0 {
        assert(k > 0);
        lemma_digits_len(n / 10, (k - 1) as nat);
    }
}

} // verus!

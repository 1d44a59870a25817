//! Elements of the BN254 scalar field, held as four 64-bit limbs.

use vstd::prelude::*;
use core::str::FromStr;
use ark_ff::PrimeField;
use crate::decimal::{
    decimal_digits, decimal_text, decimal_value, is_decimal_literal, lemma_digits_len,
    lemma_text_is_literal, pow10,
};

verus! {

/// The order of the BN254 scalar field, a prime of 254 bits.
pub open spec fn modulus() -> nat {
    21888242871839275222246405745257275088548364400416034343698204186575808495617nat
}

/// The limbs of the modulus, least significant first.
pub const MODULUS_LIMBS: [u64; 4] = [
    0x43e1f593f0000001,
    0x2833e84879b97091,
    0xb85045b68181585d,
    0x30644e72e131a029,
];

/// The most digits a field element has: the number of digits of the modulus.
pub const MAX_DIGITS: usize = 77;

/// The number that four limbs denote, least significant limb first.
pub open spec fn limbs_value(limbs: [u64; 4]) -> nat {
    (limbs[0] as nat) + (limbs[1] as nat) * 0x1_0000_0000_0000_0000nat
        + (limbs[2] as nat) * 0x1_0000_0000_0000_0000_0000_0000_0000_0000nat
        + (limbs[3] as nat) * 0x1_0000_0000_0000_0000_0000_0000_0000_0000_0000_0000_0000_0000nat
}

/// The field element that a decimal literal denotes: its value reduced by
/// the modulus.
pub open spec fn field_value(token: Seq<char>) -> nat {
    decimal_value(token) % modulus()
}

/// An element of the scalar field: a number below the modulus, held as its
/// four limbs. `e@` is the number.
#[derive(Clone, Copy, Debug, PartialEq, Eq)]
pub struct FieldElement {
    pub(crate) limbs: [u64; 4],
}

impl View for FieldElement {
    type V = nat;

    open spec fn view(&self) -> nat {
        limbs_value(self.spec_limbs())
    }
}

impl FieldElement {
    /// Every element is below the modulus.
    #[verifier::type_invariant]
    pub open spec fn canonical(self) -> bool {
        self@ < modulus()
    }

    /// The limbs of this element, least significant first.
    pub closed spec fn spec_limbs(self) -> [u64; 4] {
        self.limbs
    }

    /// The element with the given limbs, least significant first, or `None`
    /// when they denote a number that is not below the modulus.
    pub fn from_limbs(limbs: [u64; 4]) -> (element: Option<FieldElement>)
        ensures
            element is Some <==> limbs_value(limbs) < modulus(),
            element matches Some(e) ==> e.spec_limbs() == limbs && e@ == limbs_value(limbs),
    {
        let below = if limbs[3] != MODULUS_LIMBS[3] {
            limbs[3] < MODULUS_LIMBS[3]
        } else if limbs[2] != MODULUS_LIMBS[2] {
            limbs[2] < MODULUS_LIMBS[2]
        } else if limbs[1] != MODULUS_LIMBS[1] {
            limbs[1] < MODULUS_LIMBS[1]
        } else {
            limbs[0] < MODULUS_LIMBS[0]
        };
        if below {
            Some(FieldElement { limbs })
        } else {
            None
        }
    }

    /// The limbs of this element, least significant first.
    pub fn limbs(&self) -> (limbs: [u64; 4])
        ensures
            limbs == self.spec_limbs(),
            limbs_value(limbs) == self@,
            self@ < modulus(),
    {
        proof {
            use_type_invariant(self);
        }
        self.limbs
    }

    /// Writes the element in decimal: the digits of its number, most
    /// significant first, with no zero in front, and the one digit `0` for
    /// the element zero. There are at most 77 digits.
    pub fn to_decimal_string(&self) -> (digits: String)
        ensures
            digits@ == decimal_text(self@),
            1 <= digits@.len() <= MAX_DIGITS,
            is_decimal_literal(digits@),
    {
        proof {
            use_type_invariant(self);
            lemma_element_text(self@);
        }
        if self.limbs[0] == 0 && self.limbs[1] == 0 && self.limbs[2] == 0 && self.limbs[3] == 0 {
            proof {
                reveal_strlit("0");
                assert("0"@ =~= seq!['0']);
            }
            "0".to_owned()
        } else {
            fr_to_string(self)
        }
    }
}

/// The modulus is below ten to the 77.
pub proof fn lemma_modulus_below_pow10()
    ensures
        modulus() < pow10(77),
{
    assert(pow10(11) == 100_000_000_000nat) by {
        reveal_with_fuel(pow10, 12);
    }
    assert(pow10(22) == 10_000_000_000_000_000_000_000nat) by {
        reveal_with_fuel(pow10, 12);
    }
    assert(pow10(33) == 1_000_000_000_000_000_000_000_000_000_000_000nat) by {
        reveal_with_fuel(pow10, 12);
    }
    assert(pow10(44) == 100_000_000_000_000_000_000_000_000_000_000_000_000_000_000nat) by {
        reveal_with_fuel(pow10, 12);
    }
    assert(pow10(55) == 10_000_000_000_000_000_000_000_000_000_000_000_000_000_000_000_000_000_000nat) by {
        reveal_with_fuel(pow10, 12);
    }
    assert(pow10(66) == 1_000_000_000_000_000_000_000_000_000_000_000_000_000_000_000_000_000_000_000_000_000_000nat) by {
        reveal_with_fuel(pow10, 12);
    }
    assert(pow10(77) == 100_000_000_000_000_000_000_000_000_000_000_000_000_000_000_000_000_000_000_000_000_000_000_000_000_000nat) by {
        reveal_with_fuel(pow10, 12);
    }
}

/// A field element is written as a decimal literal of at most 77 digits.
pub proof fn lemma_element_text(n: nat)
    requires
        n < modulus(),
    ensures
        1 <= decimal_text(n).len() <= MAX_DIGITS,
        is_decimal_literal(decimal_text(n)),
{
    lemma_modulus_below_pow10();
    lemma_digits_len(n, 77);
    lemma_text_is_literal(n);
}

/// What is written for a number is a decimal literal, and the literal
/// denotes the number reduced by the modulus. For a field element that is
/// the element itself: what the library writes, it reads back.
pub proof fn lemma_written_number_reads_back(n: nat)
    ensures
        is_decimal_literal(decimal_text(n)),
        field_value(decimal_text(n)) == n % modulus(),
        n < modulus() ==> field_value(decimal_text(n)) == n,
{
    lemma_text_is_literal(n);
}

/// The modulus, written as a literal, denotes the element zero, as the
/// literal `0` does.
pub proof fn lemma_modulus_denotes_zero()
    ensures
        is_decimal_literal(decimal_text(modulus())),
        field_value(decimal_text(modulus())) == 0,
        is_decimal_literal(decimal_text(0)),
        field_value(decimal_text(0)) == 0,
{
    lemma_written_number_reads_back(modulus());
    lemma_written_number_reads_back(0);
}

/// The numbers of a sequence of elements, in order.
pub open spec fn values_of(elements: Seq<FieldElement>) -> Seq<nat> {
    Seq::new(elements.len(), |i: int| elements[i]@)
}

/// Reads a decimal literal as a field element, through `from_str` of
/// `ark_bn254::Fr`.
///
/// Taken on trust from the source of `ark_ff`: the string is accepted exactly
/// when it is a decimal literal (digits only, at least one, no zero in front
/// of another digit), and the element is the literal's value reduced by the
/// modulus, whatever the literal's size.
#[verifier::external_body]
pub(crate) fn fr_from_str(token: &str) -> (element: Option<FieldElement>)
    ensures
        element is Some <==> is_decimal_literal(token@),
        element matches Some(e) ==> e@ == field_value(token@),
{
    match ark_bn254::Fr::from_str(token) {
        Ok(x) => Some(FieldElement { limbs: x.into_bigint().0 }),
        Err(_) => None,
    }
}

/// Writes a field element in decimal, through `to_string` of
/// `ark_bn254::Fr`.
///
/// Taken on trust from the source of `ark_ff`: the string holds the digits of
/// the element's number with no zero in front, and is empty for zero.
#[verifier::external_body]
fn fr_to_string(element: &FieldElement) -> (digits: String)
    ensures
        digits@ == decimal_digits(element@),
{
    ark_bn254::Fr::new(ark_ff::BigInt::new(element.limbs)).to_string()
}

} // verus!

//! The hash invoker: hands a vector of field elements to the Poseidon
//! primitive, in frames where the vector is longer than the primitive
//! takes, and writes the digest in decimal.

use vstd::prelude::*;
use crate::decimal::{decimal_text, is_decimal_literal};
use crate::errors::HashError;
use crate::field::{modulus, values_of, FieldElement, MAX_DIGITS};

verus! {

/// The error of `light_poseidon`, carried as an opaque value: nothing is
/// read from it.
#[verifier::external_type_specification]
#[verifier::external_body]
pub struct ExPoseidonError(light_poseidon::PoseidonError);

/// The most elements the primitive hashes in one call: the length of a
/// frame.
pub const MAX_INPUTS: usize = 12;

/// The Poseidon digest of one to twelve field elements, for the parameters
/// that circom uses over the BN254 scalar field: what `light_poseidon`
/// computes. It has a meaning only where [`primitive_accepts`] holds.
pub uninterp spec fn poseidon_digest(elements: Seq<nat>) -> nat;

/// Whether the primitive hashes a vector of `count` elements: it refuses the
/// empty vector and any vector of more than twelve.
pub open spec fn primitive_accepts(count: nat) -> bool {
    1 <= count <= MAX_INPUTS
}

/// The digest of one frame, as a field element. The primitive returns a
/// field element, so the reduction changes nothing of what it returns.
pub open spec fn frame_digest(frame: Seq<nat>) -> nat {
    poseidon_digest(frame) % modulus()
}

/// The digest of a vector of one element or more.
///
/// A vector of at most twelve elements is one frame, and its digest is the
/// primitive's. A longer vector is taken in frames: the first twelve
/// elements are hashed, and their digest stands in front of the remaining
/// elements, which are hashed in the same way.
pub open spec fn vector_digest(elements: Seq<nat>) -> nat
    decreases elements.len(),
{
    if elements.len() <= MAX_INPUTS {
        frame_digest(elements)
    } else {
        vector_digest(
            seq![frame_digest(elements.take(MAX_INPUTS as int))] + elements.skip(
                MAX_INPUTS as int,
            ),
        )
    }
}

/// What the hash invoker makes of a vector of elements: the digest in
/// decimal, or an error for the empty vector.
pub open spec fn hash_elements(elements: Seq<nat>) -> Result<Seq<char>, HashError> {
    if elements.len() >= 1 {
        Ok(decimal_text(vector_digest(elements)))
    } else {
        Err(HashError::PrimitiveFailed)
    }
}

/// Every digest is a field element.
pub proof fn lemma_vector_digest_is_element(elements: Seq<nat>)
    ensures
        vector_digest(elements) < modulus(),
    decreases elements.len(),
{
    if elements.len() > MAX_INPUTS {
        lemma_vector_digest_is_element(
            seq![frame_digest(elements.take(MAX_INPUTS as int))] + elements.skip(
                MAX_INPUTS as int,
            ),
        );
    }
}

/// Taking a full frame off the front of a longer vector: the digest of the
/// whole is the digest of the frame's digest followed by the rest.
pub proof fn lemma_vector_digest_step(frame: Seq<nat>, rest: Seq<nat>)
    requires
        frame.len() == MAX_INPUTS,
        rest.len() >= 1,
    ensures
        vector_digest(frame + rest) == vector_digest(seq![frame_digest(frame)] + rest),
{
    let whole = frame + rest;
    assert(whole.take(MAX_INPUTS as int) =~= frame);
    assert(whole.skip(MAX_INPUTS as int) =~= rest);
}

/// Hashes the elements with a Poseidon hasher made for their number, through
/// `Poseidon::new_circom` and `PoseidonHasher::hash` of `light_poseidon`.
///
/// Taken on trust from the source of `light_poseidon`: a hasher exists for
/// one to twelve inputs and for no other number, and a hasher made for the
/// number of inputs it is given always returns a digest. Which digest is
/// not stated: it is only given its name, [`poseidon_digest`], as a function
/// of the elements.
#[verifier::external_body]
fn hash_scalars(elements: &Vec<FieldElement>) -> (hashed: Result<
    FieldElement,
    light_poseidon::PoseidonError,
>)
    ensures
        hashed is Ok <==> primitive_accepts(elements@.len()),
        hashed matches Ok(digest) ==> digest@ == poseidon_digest(values_of(elements@)),
{
    let scalars: Vec<ark_bn254::Fr> = elements.iter().map(
        |e| ark_bn254::Fr::new(ark_ff::BigInt::new(e.limbs)),
    ).collect();
    let mut hasher = light_poseidon::Poseidon::<ark_bn254::Fr>::new_circom(scalars.len())?;
    let digest = light_poseidon::PoseidonHasher::hash(&mut hasher, &scalars)?;
    Ok(FieldElement { limbs: ark_ff::PrimeField::into_bigint(digest).0 })
}

/// Hashes a vector of field elements and returns the digest as a decimal
/// string.
///
/// Succeeds for every vector but the empty one. Up to twelve elements go to
/// the primitive as they are. A longer vector goes in frames of twelve:
/// each frame after the first starts with the digest of the frame before
/// it. The string is the decimal literal of the last digest: one to 77
/// digits with no zero in front, and `0` for the digest zero.
pub fn invoke(elements: &Vec<FieldElement>) -> (hashed: Result<String, HashError>)
    ensures
        match hashed {
            Ok(digits) => hash_elements(values_of(elements@)) == Ok::<Seq<char>, HashError>(
                digits@,
            ),
            Err(e) => hash_elements(values_of(elements@)) == Err::<Seq<char>, HashError>(e),
        },
        hashed matches Ok(digits) ==> 1 <= digits@.len() <= MAX_DIGITS && is_decimal_literal(
            digits@,
        ),
{
    let count: usize = elements.len();
    if count == 0 {
        return Err(HashError::PrimitiveFailed);
    }
    let mut frame: Vec<FieldElement> = Vec::new();
    let mut taken: usize = 0;
    while taken < count && taken < MAX_INPUTS
        invariant
            count == elements@.len(),
            taken <= count,
            taken <= MAX_INPUTS,
            frame@ =~= elements@.take(taken as int),
        decreases count - taken,
    {
        frame.push(elements[taken]);
        taken += 1;
    }
    assert(values_of(frame@) + values_of(elements@).skip(taken as int) =~= values_of(elements@));
    loop
        invariant
            count == elements@.len(),
            1 <= count,
            taken <= count,
            1 <= frame@.len() <= MAX_INPUTS,
            frame@.len() == MAX_INPUTS || taken == count,
            vector_digest(values_of(elements@)) == vector_digest(
                values_of(frame@) + values_of(elements@).skip(taken as int),
            ),
        decreases count - taken,
    {
        let digest = match hash_scalars(&frame) {
            Ok(digest) => digest,
            Err(_) => {
                return Err(HashError::PrimitiveFailed);
            },
        };
        proof {
            use_type_invariant(&digest);
            assert(digest@ == frame_digest(values_of(frame@)));
        }
        if taken == count {
            assert(values_of(frame@) + values_of(elements@).skip(taken as int) =~= values_of(
                frame@,
            ));
            assert(values_of(frame@).len() <= MAX_INPUTS);
            assert(vector_digest(values_of(frame@)) == frame_digest(values_of(frame@)));
            return Ok(digest.to_decimal_string());
        }
        let start: usize = taken;
        let mut next: Vec<FieldElement> = Vec::new();
        next.push(digest);
        while taken < count && next.len() < MAX_INPUTS
            invariant
                count == elements@.len(),
                start <= taken <= count,
                next@.len() == 1 + taken - start,
                next@.len() <= MAX_INPUTS,
                next@ =~= seq![digest] + elements@.subrange(start as int, taken as int),
            decreases count - taken,
        {
            next.push(elements[taken]);
            taken += 1;
        }
        proof {
            let rest = values_of(elements@).skip(start as int);
            lemma_vector_digest_step(values_of(frame@), rest);
            assert(values_of(next@) + values_of(elements@).skip(taken as int) =~= seq![
                frame_digest(values_of(frame@)),
            ] + rest);
        }
        frame = next;
    }
}

} // verus!

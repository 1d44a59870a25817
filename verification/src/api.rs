//! The boundary entry point: bytes in, a result code out, and the digest in
//! the caller's buffer.
//!
//! One call runs three stages in order: the input decoder, the hash invoker
//! and the buffer writer. The first failure ends the call. Nothing is kept
//! between calls.

use vstd::prelude::*;
use vstd::utf8::{
    decode_utf8, encode_utf8, encode_utf8_decode_utf8, is_ascii_chars,
    is_ascii_chars_encode_utf8, valid_utf8,
};
use crate::decimal::{all_digits, decimal_text, is_decimal_literal};
use crate::decoder::{
    all_literals, decode, decode_text, decode_tokens, element_values, json_string_array,
};
use crate::errors::{DecodeError, Failure};
use crate::field::{lemma_element_text, lemma_modulus_denotes_zero, modulus, MAX_DIGITS};
use crate::hasher::{hash_elements, invoke, lemma_vector_digest_is_element, vector_digest};
use crate::returncodes::BUFFER_TOO_SMALL;
use crate::utils::{fits, with_payload, write_buffer, write_to_buffer};

verus! {

/// What the hash invoker makes of what the decoder returned.
pub open spec fn hash_decoded(decoded: Result<Seq<nat>, DecodeError>) -> Result<
    Seq<char>,
    Failure,
> {
    match decoded {
        Ok(elements) => match hash_elements(elements) {
            Ok(digits) => Ok(digits),
            Err(e) => Err(Failure::of_hash(e)),
        },
        Err(e) => Err(Failure::of_decode(e)),
    }
}

/// The digest, in decimal, of an array of tokens, or why there is none.
pub open spec fn hash_tokens(tokens: Seq<Seq<char>>) -> Result<Seq<char>, Failure> {
    hash_decoded(decode_tokens(tokens))
}

/// The digest, in decimal, of the array that a text holds, or why there is
/// none.
pub open spec fn hash_text(text: Seq<char>) -> Result<Seq<char>, Failure> {
    hash_decoded(decode_text(text))
}

/// The digest, in decimal, of the array that the input bytes hold, or why
/// there is none.
pub open spec fn hash_bytes(input: Seq<u8>) -> Result<Seq<char>, Failure> {
    if valid_utf8(input) {
        hash_text(decode_utf8(input))
    } else {
        Err(Failure::InvalidEncoding)
    }
}

/// The bytes of a string of ASCII characters.
pub open spec fn ascii_bytes(text: Seq<char>) -> Seq<u8> {
    Seq::new(text.len(), |i: int| text[i] as u8)
}

/// What one call comes to for a buffer of `max_len` bytes: the number of
/// digest bytes written, or the failure.
pub open spec fn reply(input: Seq<u8>, max_len: int) -> Result<nat, Failure> {
    match hash_bytes(input) {
        Ok(digits) => if fits(digits.len(), max_len) {
            Ok(digits.len())
        } else {
            Err(Failure::BufferTooSmall { length: digits.len() as usize })
        },
        Err(failure) => Err(failure),
    }
}

/// What one call leaves in the buffer: the digest and a zero byte behind it
/// where both fit, and otherwise what was there.
pub open spec fn buffer_after(before: Seq<u8>, input: Seq<u8>, max_len: int) -> Seq<u8> {
    match hash_bytes(input) {
        Ok(digits) => write_buffer(before, ascii_bytes(digits), max_len),
        Err(_) => before,
    }
}

/// The number the caller sees: the count of bytes written, `-1000` for a
/// buffer that is too small, `-1` for every other failure.
pub open spec fn reply_code(outcome: Result<nat, Failure>) -> int {
    match outcome {
        Ok(length) => length as int,
        Err(failure) => failure.reported().value(),
    }
}

/// Reads bytes as text, through `core::str::from_utf8`.
///
/// Taken on trust from the documentation of the standard library: the bytes
/// are accepted exactly when they are valid UTF-8, and the text then has
/// those very bytes.
#[verifier::external_body]
fn str_from_utf8(bytes: &[u8]) -> (text: Option<&str>)
    ensures
        text is Some <==> valid_utf8(bytes@),
        text matches Some(s) ==> encode_utf8(s@) == bytes@,
{
    match core::str::from_utf8(bytes) {
        Ok(s) => Some(s),
        Err(_) => None,
    }
}

/// Decodes a JSON array of decimal literals, hashes the elements and returns
/// the digest as a decimal string.
///
/// The result is a function of the text alone. It fails when the text is
/// not an array of strings, when a string is not a decimal literal, and for
/// the empty array. The digest is a decimal literal of one to 77 digits.
pub fn do_poseidon_hash(input: &str) -> (hashed: Result<String, Failure>)
    ensures
        match hashed {
            Ok(digits) => hash_text(input@) == Ok::<Seq<char>, Failure>(digits@),
            Err(failure) => hash_text(input@) == Err::<Seq<char>, Failure>(failure),
        },
        hashed matches Ok(digits) ==> 1 <= digits@.len() <= MAX_DIGITS && is_decimal_literal(
            digits@,
        ),
{
    let elements = match decode(input) {
        Ok(elements) => elements,
        Err(e) => {
            return Err(Failure::from_decode(e));
        },
    };
    match invoke(&elements) {
        Ok(digits) => Ok(digits),
        Err(e) => Err(Failure::from_hash(e)),
    }
}

/// Runs one call: checks that `input` is UTF-8, hashes the array it holds
/// and writes the digest, with a zero byte behind it, to the start of `buf`.
///
/// Returns the number of digest bytes written, or the failure. On failure
/// the buffer is left as it was. A buffer of 78 bytes is never too small.
///
/// The caller vouches that `buf` really has `max_len` bytes.
pub fn hash_into(input: &[u8], buf: &mut [u8], max_len: i32) -> (written: Result<usize, Failure>)
    requires
        max_len <= old(buf)@.len(),
    ensures
        match written {
            Ok(length) => reply(input@, max_len as int) == Ok::<nat, Failure>(length as nat),
            Err(failure) => reply(input@, max_len as int) == Err::<nat, Failure>(failure),
        },
        final(buf)@ == buffer_after(old(buf)@, input@, max_len as int),
        written matches Ok(length) ==> 1 <= length <= MAX_DIGITS,
        max_len > MAX_DIGITS ==> !(written matches Err(Failure::BufferTooSmall { .. })),
{
    let text = match str_from_utf8(input) {
        Some(text) => text,
        None => {
            return Err(Failure::InvalidEncoding);
        },
    };
    proof {
        encode_utf8_decode_utf8(text@);
    }
    let digits = match do_poseidon_hash(text) {
        Ok(digits) => digits,
        Err(failure) => {
            return Err(failure);
        },
    };
    proof {
        lemma_digits_are_ascii(digits@);
    }
    let length: usize = digits.as_str().len();
    let code = write_to_buffer(&digits, buf, max_len);
    if code == BUFFER_TOO_SMALL {
        Err(Failure::BufferTooSmall { length })
    } else {
        Ok(length)
    }
}

/// Hashes the JSON array of decimal literals in `input` and writes the
/// digest, in decimal and with a zero byte behind it, to the start of `buf`.
///
/// Returns the number of digest bytes written (the zero byte not counted),
/// `-1` when the input cannot be hashed, and `-1000` when the digest and its
/// zero byte need more than `max_len` bytes. On a negative result the buffer
/// is left as it was.
///
/// The caller vouches that `buf` really has `max_len` bytes.
pub fn poseidon_hash(input: &[u8], buf: &mut [u8], max_len: i32) -> (code: i32)
    requires
        max_len <= old(buf)@.len(),
    ensures
        code == reply_code(reply(input@, max_len as int)),
        final(buf)@ == buffer_after(old(buf)@, input@, max_len as int),
        1 <= code <= MAX_DIGITS || code == -1 || code == -1000,
        max_len > MAX_DIGITS ==> code != -1000,
{
    match hash_into(input, buf, max_len) {
        Ok(length) => length as i32,
        Err(failure) => failure.return_code().code(),
    }
}

/// A string of digits is ASCII: its UTF-8 bytes are its characters.
pub proof fn lemma_digits_are_ascii(digits: Seq<char>)
    requires
        all_digits(digits),
    ensures
        is_ascii_chars(digits),
        encode_utf8(digits) == ascii_bytes(digits),
{
    assert(is_ascii_chars(digits));
    is_ascii_chars_encode_utf8(digits);
    assert(encode_utf8(digits) =~= ascii_bytes(digits));
}

/// The digest of an array depends on the elements that its literals denote
/// and on nothing else: two arrays of literals that denote the same
/// elements, such as a number and the same number with the modulus added,
/// have the same digest.
pub proof fn lemma_digest_depends_on_elements(first: Seq<Seq<char>>, second: Seq<Seq<char>>)
    requires
        all_literals(first),
        all_literals(second),
        element_values(first) == element_values(second),
    ensures
        hash_tokens(first) == hash_tokens(second),
{
}

/// An array that holds the modulus alone has the digest of an array that
/// holds `0` alone: a literal stands for its value reduced by the modulus.
pub proof fn lemma_modulus_hashes_as_zero()
    ensures
        hash_tokens(seq![decimal_text(modulus())]) == hash_tokens(seq![decimal_text(0)]),
{
    lemma_modulus_denotes_zero();
    let first = seq![decimal_text(modulus())];
    let second = seq![decimal_text(0)];
    assert(element_values(first) =~= element_values(second));
    lemma_digest_depends_on_elements(first, second);
}

/// Every array of one decimal literal or more is hashed, and the digest is
/// written as a decimal literal of one to 77 digits. Where the digest and
/// its zero byte fit into the buffer, as they do in 78 bytes, the call
/// returns the number of digits, the buffer starts with them, and the zero
/// byte stands right behind them.
pub proof fn lemma_literals_are_hashed(
    input: Seq<u8>,
    tokens: Seq<Seq<char>>,
    before: Seq<u8>,
    max_len: int,
)
    requires
        valid_utf8(input),
        json_string_array(decode_utf8(input)) == Some(tokens),
        tokens.len() >= 1,
        all_literals(tokens),
        max_len <= before.len(),
    ensures
        hash_bytes(input) == Ok::<Seq<char>, Failure>(
            decimal_text(vector_digest(element_values(tokens))),
        ),
        ({
            let digits = decimal_text(vector_digest(element_values(tokens)));
            let after = buffer_after(before, input, max_len);
            &&& is_decimal_literal(digits)
            &&& 1 <= digits.len() <= MAX_DIGITS
            &&& max_len > MAX_DIGITS ==> fits(digits.len(), max_len)
            &&& fits(digits.len(), max_len) ==> {
                &&& reply_code(reply(input, max_len)) == digits.len()
                &&& after.len() == before.len()
                &&& after[digits.len() as int] == 0
                &&& forall|i: int| 0 <= i < digits.len() ==> after[i] == digits[i] as u8
            }
        }),
{
    lemma_vector_digest_is_element(element_values(tokens));
    lemma_element_text(vector_digest(element_values(tokens)));
}

/// The empty array is never hashed: the primitive refuses it, and the caller
/// is told `-1`.
pub proof fn lemma_empty_array_is_rejected(input: Seq<u8>, max_len: int)
    requires
        valid_utf8(input),
        json_string_array(decode_utf8(input)) == Some(Seq::<Seq<char>>::empty()),
    ensures
        hash_bytes(input) == Err::<Seq<char>, Failure>(Failure::PrimitiveRejection),
        reply_code(reply(input, max_len)) == -1,
{
}

/// An array with an element that is not a decimal literal, such as the empty
/// string or a word, is never hashed: the caller is told `-1`.
pub proof fn lemma_bad_element_is_rejected(
    input: Seq<u8>,
    tokens: Seq<Seq<char>>,
    at: int,
    max_len: int,
)
    requires
        valid_utf8(input),
        json_string_array(decode_utf8(input)) == Some(tokens),
        0 <= at < tokens.len(),
        !is_decimal_literal(tokens[at]),
    ensures
        hash_bytes(input) == Err::<Seq<char>, Failure>(Failure::ElementParseFailure),
        reply_code(reply(input, max_len)) == -1,
{
}

/// Input that is not hashed is reported as `-1` whatever the buffer, and a
/// digest that does not fit as `-1000`; either way the buffer is left as it
/// was.
pub proof fn lemma_failure_leaves_buffer(input: Seq<u8>, before: Seq<u8>, max_len: int)
    ensures
        hash_bytes(input) is Err ==> reply_code(reply(input, max_len)) == -1,
        hash_bytes(input) matches Ok(digits) ==> (max_len <= digits.len() <==> reply_code(
            reply(input, max_len),
        ) == -1000),
        reply_code(reply(input, max_len)) < 0 ==> buffer_after(before, input, max_len) == before,
{
}

} // verus!

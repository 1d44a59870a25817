//! The input decoder: from the text of a JSON array of decimal literals to a
//! vector of field elements, all or nothing.

use vstd::prelude::*;
use vstd::string::StringExecFns;
use crate::decimal::is_decimal_literal;
use crate::errors::{DecodeError, ParseError};
use crate::field::{field_value, fr_from_str, values_of, FieldElement};

verus! {

/// The error of `serde_json`, carried as an opaque value: nothing is read
/// from it.
#[verifier::external_type_specification]
#[verifier::external_body]
pub struct ExJsonError(serde_json::Error);

/// The strings of the JSON array that `text` holds, or `None` when `text` is
/// not a JSON array of strings: what `serde_json` makes of it.
pub uninterp spec fn json_string_array(text: Seq<char>) -> Option<Seq<Seq<char>>>;

/// The texts of a sequence of strings, in order.
pub open spec fn texts(strings: Seq<String>) -> Seq<Seq<char>> {
    Seq::new(strings.len(), |i: int| strings[i]@)
}

/// Whether every token is a decimal literal.
pub open spec fn all_literals(tokens: Seq<Seq<char>>) -> bool {
    forall|i: int| 0 <= i < tokens.len() ==> is_decimal_literal(#[trigger] tokens[i])
}

/// The field elements that the tokens denote, in order.
pub open spec fn element_values(tokens: Seq<Seq<char>>) -> Seq<nat> {
    Seq::new(tokens.len(), |i: int| field_value(tokens[i]))
}

/// What the decoder makes of an array of tokens: the elements they denote,
/// or an error if any of them is not a decimal literal.
pub open spec fn decode_tokens(tokens: Seq<Seq<char>>) -> Result<Seq<nat>, DecodeError> {
    if all_literals(tokens) {
        Ok(element_values(tokens))
    } else {
        Err(DecodeError::ElementParse)
    }
}

/// What the decoder makes of a text.
pub open spec fn decode_text(text: Seq<char>) -> Result<Seq<nat>, DecodeError> {
    match json_string_array(text) {
        Some(tokens) => decode_tokens(tokens),
        None => Err(DecodeError::Malformed),
    }
}

/// Reads `text` as a JSON array of strings, through `serde_json::from_str`.
///
/// Nothing is claimed about which texts are arrays of strings: the outcome
/// is only given its name, [`json_string_array`], as a function of the text.
#[verifier::external_body]
fn json_from_str(text: &str) -> (decoded: Result<Vec<String>, serde_json::Error>)
    ensures
        match decoded {
            Ok(strings) => json_string_array(text@) == Some(texts(strings@)),
            Err(_) => json_string_array(text@) is None,
        },
{
    serde_json::from_str::<Vec<String>>(text)
}

/// Reads every string as a decimal literal and returns the field elements
/// they denote, in order.
///
/// Either all strings are literals and all elements are returned, or the
/// call fails as a whole. A literal that is not below the modulus denotes
/// its remainder. An empty vector gives an empty vector.
pub fn parse_inputs(inputs: &Vec<String>) -> (parsed: Result<Vec<FieldElement>, ParseError>)
    ensures
        parsed is Ok <==> all_literals(texts(inputs@)),
        parsed matches Ok(elements) ==> values_of(elements@) == element_values(texts(inputs@)),
        parsed matches Err(e) ==> e.message@ == "Failed to parse inputs"@,
{
    let mut elements: Vec<FieldElement> = Vec::new();
    let mut i: usize = 0;
    while i < inputs.len()
        invariant
            i <= inputs.len(),
            elements@.len() == i,
            forall|j: int| 0 <= j < i ==> is_decimal_literal(#[trigger] texts(inputs@)[j]),
            forall|j: int| 0 <= j < i ==> (#[trigger] elements@[j])@ == field_value(inputs@[j]@),
        decreases inputs.len() - i,
    {
        match fr_from_str(inputs[i].as_str()) {
            Some(element) => {
                elements.push(element);
            },
            None => {
                assert(!is_decimal_literal(texts(inputs@)[i as int]));
                return Err(ParseError { message: String::from_str("Failed to parse inputs") });
            },
        }
        i += 1;
    }
    assert(values_of(elements@) =~= element_values(texts(inputs@)));
    Ok(elements)
}

/// Decodes the text of a JSON array of decimal literals into field elements.
///
/// Fails with [`DecodeError::Malformed`] when the text is not a JSON array
/// of strings, and with [`DecodeError::ElementParse`] when it is but one of
/// the strings is not a decimal literal. The empty array decodes to the
/// empty vector.
pub fn decode(raw_text: &str) -> (decoded: Result<Vec<FieldElement>, DecodeError>)
    ensures
        match decoded {
            Ok(elements) => decode_text(raw_text@) == Ok::<Seq<nat>, DecodeError>(
                values_of(elements@),
            ),
            Err(e) => decode_text(raw_text@) == Err::<Seq<nat>, DecodeError>(e),
        },
{
    match json_from_str(raw_text) {
        Ok(strings) => match parse_inputs(&strings) {
            Ok(elements) => Ok(elements),
            Err(_) => Err(DecodeError::ElementParse),
        },
        Err(_) => Err(DecodeError::Malformed),
    }
}

} // verus!

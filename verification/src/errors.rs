//! The ways a call can fail, stage by stage, and how the stages' failures
//! collapse into what the caller is told.

use vstd::prelude::*;
use vstd::string::StringExecFns;
use crate::returncodes::ReturnCodes;

verus! {

/// One or more array entries could not be read as a field element.
#[derive(Debug)]
pub struct ParseError {
    pub message: String,
}

impl ParseError {
    /// The text of this error: `ParseError: ` followed by the message.
    pub open spec fn text(self) -> Seq<char> {
        "ParseError: "@ + self.message@
    }

    /// Renders the error as `ParseError: ` followed by its message.
    pub fn to_string(&self) -> (rendered: String)
        ensures
            rendered@ == self.text(),
    {
        let mut rendered = String::from_str("ParseError: ");
        rendered.append(self.message.as_str());
        rendered
    }
}

/// Why the input decoder gave up.
#[derive(Clone, Copy, Debug, PartialEq, Eq, Structural)]
pub enum DecodeError {
    /// The text is not a JSON array of strings.
    Malformed,
    /// The array was read, but an entry is not a decimal literal.
    ElementParse,
}

/// Why the hash invoker gave up.
#[derive(Clone, Copy, Debug, PartialEq, Eq, Structural)]
pub enum HashError {
    /// The hash primitive refused the element vector.
    PrimitiveFailed,
}

/// Every way one call can fail.
#[derive(Clone, Copy, Debug, PartialEq, Eq, Structural)]
pub enum Failure {
    /// The input bytes are not UTF-8.
    InvalidEncoding,
    /// The text is not a JSON array of strings.
    MalformedStructure,
    /// An array entry is not a decimal literal.
    ElementParseFailure,
    /// The hash primitive refused the element vector.
    PrimitiveRejection,
    /// The digest and its terminator need more than the buffer offers;
    /// `length` is the number of digest bytes.
    BufferTooSmall { length: usize },
}

impl Failure {
    /// What the caller is told about this failure.
    pub open spec fn reported(self) -> ReturnCodes {
        match self {
            Failure::BufferTooSmall { .. } => ReturnCodes::BufferTooSmall,
            _ => ReturnCodes::InvalidInput,
        }
    }

    /// Collapses the failure into what the caller is told: a buffer that is
    /// too small is reported as such, everything else as invalid input.
    pub fn return_code(&self) -> (reported: ReturnCodes)
        ensures
            reported == self.reported(),
    {
        match self {
            Failure::BufferTooSmall { .. } => ReturnCodes::BufferTooSmall,
            _ => ReturnCodes::InvalidInput,
        }
    }

    /// The failure that a decoder error becomes.
    pub open spec fn of_decode(error: DecodeError) -> Failure {
        match error {
            DecodeError::Malformed => Failure::MalformedStructure,
            DecodeError::ElementParse => Failure::ElementParseFailure,
        }
    }

    /// Carries a decoder error over.
    pub fn from_decode(error: DecodeError) -> (failure: Failure)
        ensures
            failure == Failure::of_decode(error),
    {
        match error {
            DecodeError::Malformed => Failure::MalformedStructure,
            DecodeError::ElementParse => Failure::ElementParseFailure,
        }
    }

    /// The failure that a hash error becomes.
    pub open spec fn of_hash(error: HashError) -> Failure {
        match error {
            HashError::PrimitiveFailed => Failure::PrimitiveRejection,
        }
    }

    /// Carries a hash error over.
    pub fn from_hash(error: HashError) -> (failure: Failure)
        ensures
            failure == Failure::of_hash(error),
    {
        match error {
            HashError::PrimitiveFailed => Failure::PrimitiveRejection,
        }
    }
}

} // verus!

//! The negative numbers a caller can see in place of a byte count.

use vstd::prelude::*;

verus! {

/// The result code for input that cannot be hashed.
pub const INVALID_INPUT: i32 = -1;

/// The result code for a buffer that cannot hold the digest and its
/// terminating zero byte.
pub const BUFFER_TOO_SMALL: i32 = -1000;

/// What a failed call reports. A caller sees only [`ReturnCodes::code`].
#[derive(Clone, Copy, Debug, PartialEq, Eq, Structural)]
pub enum ReturnCodes {
    /// The input was rejected; asking again with the same input cannot help.
    InvalidInput,
    /// The digest did not fit; asking again with a larger buffer can help.
    BufferTooSmall,
}

impl ReturnCodes {
    /// The number that stands for this outcome.
    pub open spec fn value(self) -> int {
        match self {
            ReturnCodes::InvalidInput => -1,
            ReturnCodes::BufferTooSmall => -1000,
        }
    }

    /// The number that stands for this outcome: always negative, so never a
    /// byte count.
    pub fn code(self) -> (code: i32)
        ensures
            code == self.value(),
            code < 0,
    {
        match self {
            ReturnCodes::InvalidInput => INVALID_INPUT,
            ReturnCodes::BufferTooSmall => BUFFER_TOO_SMALL,
        }
    }
}

} // verus!

//! Poseidon hashing over the BN254 scalar field, shaped for a caller on the
//! other side of a C boundary: the input arrives as bytes, the digest leaves
//! as a decimal string in a buffer of fixed capacity, and every failure is a
//! small negative number.

pub mod api;
pub mod decimal;
pub mod decoder;
pub mod errors;
pub mod field;
pub mod hasher;
pub mod returncodes;
pub mod utils;

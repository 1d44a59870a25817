//! The buffer writer: one bounds-checked copy of a finished string into the
//! caller's memory.

use vstd::prelude::*;
use vstd::utf8::encode_utf8;
use crate::returncodes::BUFFER_TOO_SMALL;

verus! {

/// Whether `len` payload bytes and the zero byte behind them fit into a
/// buffer of `max_len` bytes.
pub open spec fn fits(len: nat, max_len: int) -> bool {
    len < max_len
}

/// The buffer `before` once `payload` and its terminating zero byte have been
/// laid over its start. Bytes behind the terminator keep their value.
pub open spec fn with_payload(before: Seq<u8>, payload: Seq<u8>) -> Seq<u8> {
    Seq::new(
        before.len(),
        |i: int|
            if i < payload.len() {
                payload[i]
            } else if i == payload.len() {
                0u8
            } else {
                before[i]
            },
    )
}

/// What [`write_to_buffer`] returns for a payload of `len` bytes and a
/// capacity of `max_len`: the payload length, or the sentinel `-1000`.
pub open spec fn write_code(len: nat, max_len: int) -> int {
    if fits(len, max_len) {
        len as int
    } else {
        -1000
    }
}

/// What [`write_to_buffer`] leaves in the buffer.
pub open spec fn write_buffer(before: Seq<u8>, payload: Seq<u8>, max_len: int) -> Seq<u8> {
    if fits(payload.len(), max_len) {
        with_payload(before, payload)
    } else {
        before
    }
}

/// Writing never reaches a byte at or behind `max_len`, and never changes
/// the length of the buffer.
pub proof fn lemma_write_stays_within_capacity(before: Seq<u8>, payload: Seq<u8>, max_len: int)
    requires
        max_len <= before.len(),
    ensures
        write_buffer(before, payload, max_len).len() == before.len(),
        forall|i: int|
            0 <= i < before.len() && i >= max_len ==> write_buffer(before, payload, max_len)[i]
                == before[i],
{
}

/// Copies the UTF-8 bytes of `output` to the start of `buf` and puts a zero
/// byte behind them, provided both fit into the first `max_len` bytes.
///
/// Returns the number of payload bytes (the terminator not counted). When
/// the payload and its terminator need more than `max_len` bytes, nothing is
/// written and the result is `-1000`. A `max_len` of zero or less never fits.
///
/// The caller vouches that `buf` really has `max_len` bytes.
pub fn write_to_buffer(output: &String, buf: &mut [u8], max_len: i32) -> (code: i32)
    requires
        max_len <= old(buf)@.len(),
    ensures
        code == write_code(encode_utf8(output@).len(), max_len as int),
        final(buf)@ == write_buffer(old(buf)@, encode_utf8(output@), max_len as int),
{
    let bytes: &[u8] = output.as_str().as_bytes();
    let len: usize = bytes.len();
    if max_len > 0 && len < max_len as usize {
        let mut i: usize = 0;
        while i < len
            invariant
                i <= len,
                len == bytes@.len(),
                len < buf@.len(),
                buf@.len() == old(buf)@.len(),
                forall|j: int| 0 <= j < i ==> buf@[j] == bytes@[j],
                forall|j: int| i <= j < buf@.len() ==> buf@[j] == old(buf)@[j],
            decreases len - i,
        {
            buf[i] = bytes[i];
            i += 1;
        }
        buf[len] = 0;
        assert(buf@ =~= with_payload(old(buf)@, bytes@));
        len as i32
    } else {
        BUFFER_TOO_SMALL
    }
}

} // verus!

//! Error Serialization
//!
//! This module handles serialization of X11 errors to wire format.

use vstd::prelude::*;
use bytes::BytesMut;
use crate::protocol::buffers::{buffer_limit, bytes_mut_contents, put_u16, put_u32, put_u8};
use crate::protocol::endianness::{u16_bytes, u32_bytes, zeros};
use crate::protocol::message::errors::ErrorResponse;
use crate::protocol::types::ByteOrder;

verus! {

/// The 32 bytes of an error: 0, the error code, the sequence number, the bad
/// value, the minor and major opcodes (multi-byte fields most significant
/// byte first), then 21 zero bytes.
pub open spec fn error_bytes(error: ErrorResponse) -> Seq<u8> {
    seq![0u8, error.error_code] + u16_bytes(error.sequence_number, ByteOrder::BigEndian)
        + u32_bytes(error.bad_value, ByteOrder::BigEndian) + u16_bytes(
        error.minor_opcode,
        ByteOrder::BigEndian,
    ) + seq![error.major_opcode] + zeros(21)
}

/// Append `n` zero bytes.
pub fn put_zeros(buf: &mut BytesMut, n: usize)
    requires
        bytes_mut_contents(*old(buf)).len() + n <= buffer_limit(),
    ensures
        bytes_mut_contents(*final(buf)) == bytes_mut_contents(*old(buf)) + zeros(n as nat),
{
    let ghost start = bytes_mut_contents(*buf);
    let mut i: usize = 0;
    while i < n
        invariant
            i <= n,
            start.len() + n <= buffer_limit(),
            bytes_mut_contents(*buf) == start + zeros(i as nat),
        decreases n - i,
    {
        put_u8(buf, 0);
        i = i + 1;
        assert(bytes_mut_contents(*buf) =~= start + zeros(i as nat));
    }
}

/// Serialize an error to wire format
pub fn serialize_error(error: &ErrorResponse, buf: &mut BytesMut)
    requires
        bytes_mut_contents(*old(buf)).len() + 32 <= buffer_limit(),
    ensures
        bytes_mut_contents(*final(buf)) == bytes_mut_contents(*old(buf)) + error_bytes(*error),
{
    let ghost start = bytes_mut_contents(*buf);
    put_u8(buf, 0);  // Error type
    put_u8(buf, error.error_code);
    put_u16(buf, error.sequence_number);
    put_u32(buf, error.bad_value);
    put_u16(buf, error.minor_opcode);
    put_u8(buf, error.major_opcode);
    // Pad to 32 bytes (21 bytes padding needed)
    put_zeros(buf, 21);
    assert(bytes_mut_contents(*buf) =~= start + error_bytes(*error));
}

} // verus!

//! Utility functions for X11 wire format operations

use vstd::prelude::*;
use crate::protocol::endianness::pad_to;
use crate::protocol::handshake::decimal;
use crate::protocol::types::{Result, X11Error};

verus! {

/// Calculate padding needed to align to 4-byte boundary
pub fn padding_for_length(len: usize) -> (p: usize)
    ensures
        p == pad_to(len as nat, 4),
        p < 4,
        (len + p) % 4 == 0,
{
    (4 - (len % 4)) % 4
}

/// Calculate total length including padding
pub fn padded_length(len: usize) -> (n: usize)
    requires
        len + 3 <= usize::MAX,
    ensures
        n == len + pad_to(len as nat, 4),
        n % 4 == 0,
        len <= n < len + 4,
{
    len + padding_for_length(len)
}

/// The message for a buffer shorter than expected.
pub open spec fn buffer_too_short_text(expected: usize, got: usize) -> Seq<char> {
    "Buffer too short: expected "@ + decimal(expected as nat) + ", got "@ + decimal(got as nat)
}

/// `format!` of the expected and actual lengths into the short-buffer
/// message. `Display` for an integer writes its decimal digits.
#[verifier::external_body]
pub(crate) fn buffer_too_short_message(expected: usize, got: usize) -> (s: String)
    ensures
        s@ == buffer_too_short_text(expected, got),
{
    format!("Buffer too short: expected {}, got {}", expected, got)
}

/// Validate that a buffer has enough data for a message
pub fn validate_buffer_length(buf: &[u8], expected: usize) -> (r: Result<()>)
    ensures
        r is Ok <==> buf@.len() >= expected,
        r matches Err(X11Error::Protocol(m)) ==> m@ == buffer_too_short_text(expected, buf.len()),
        r matches Err(e) ==> e is Protocol,
{
    if buf.len() < expected {
        return Err(X11Error::Protocol(buffer_too_short_message(expected, buf.len())));
    }
    Ok(())
}

} // verus!

//! Utility functions for X11 wire format operations

use vstd::prelude::*;
use crate::protocol::endianness::pad_to;
use crate::protocol::serialization::wire::utils::{buffer_too_short_message, buffer_too_short_text};
use crate::protocol::error::{ProtocolError, ServerError, ServerResult};

verus! {

/// Calculate padding needed to align to 4-byte boundary
pub fn padding_for_length(len: usize) -> (p: usize)
    ensures
        p == pad_to(len as nat, 4),
        p < 4,
        (len + p) % 4 == 0,
{
    (4 - (len % 4)) % 4
}

/// Calculate total length including padding
pub fn padded_length(len: usize) -> (n: usize)
    requires
        len + 3 <= usize::MAX,
    ensures
        n == len + pad_to(len as nat, 4),
        n % 4 == 0,
        len <= n < len + 4,
{
    len + padding_for_length(len)
}

/// Validate that a buffer has enough data for a message
pub fn validate_buffer_length(buf: &[u8], expected: usize) -> (r: ServerResult<()>)
    ensures
        r is Ok <==> buf@.len() >= expected,
        r matches Err(ServerError::ProtocolError(ProtocolError::InvalidMessage(m))) ==> m@
            == buffer_too_short_text(expected, buf.len()),
        r matches Err(e) ==> e matches ServerError::ProtocolError(ProtocolError::InvalidMessage(_)),
{
    if buf.len() < expected {
        return Err(
            ServerError::ProtocolError(
                ProtocolError::InvalidMessage(buffer_too_short_message(expected, buf.len())),
            ),
        );
    }
    Ok(())
}

} // verus!

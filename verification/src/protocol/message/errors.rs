//! X11 Protocol Errors
//!
//! This module contains all X11 error definitions that can be sent from server to clients
//! when requests fail or invalid operations are attempted.

use vstd::prelude::*;

verus! {

/// X11 error response sent when a request fails
#[derive(Debug, Clone)]
pub struct ErrorResponse {
    /// The error code of the error that occurred (Request, Value, Window, ...)
    pub error_code: u8,
    /// Sequence number of the failed request
    pub sequence_number: u16,
    /// The invalid resource ID or value that caused the error
    pub bad_value: u32,
    /// Minor opcode if this was an extension request
    pub minor_opcode: u16,
    /// Major opcode of the failed request
    pub major_opcode: u8,
}

} // verus!

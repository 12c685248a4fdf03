//! Protocol error types for the X11 server.
//!
//! This module defines error types that can occur during X11 protocol handling,
//! particularly related to opcode registration and processing.

use vstd::prelude::*;
use crate::protocol::types::Opcode;

verus! {

/// Errors that can occur during X11 protocol processing.
#[derive(Debug, Clone)]
pub enum ProtocolError {
    /// An attempt was made to register an opcode that is already registered.
    OpcodeAlreadyRegistered(Opcode),
    /// An attempt was made to use an opcode that has not been registered.
    OpcodeNotRegistered(Opcode),
    /// The specified opcode is not supported by this server implementation.
    UnimplementedOpcode(Opcode),
    /// The specified opcode is outside what a handler accepts at all.
    UnsupportedOpcode(Opcode),
    /// The requested operation is not implemented.
    Unimplemented,
    /// Invalid message format or content.
    InvalidMessage(String),
    /// Unsupported protocol version.
    UnsupportedProtocolVersion(u16, u16),
}

/// Errors of the server as a whole.
#[derive(Debug, Clone)]
pub enum ServerError {
    ProtocolError(ProtocolError),
    NetworkError(String),
    PluginError(String),
}

pub type ServerResult<T> = core::result::Result<T, ServerError>;

} // verus!

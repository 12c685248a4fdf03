//! X11 Protocol Messages
//!
//! This module contains the core X11 protocol message types and structures.
//! It provides clean separation between message definitions and serialization logic.

use vstd::prelude::*;
use crate::protocol::message::errors::ErrorResponse;
use crate::protocol::message::events::Event;
use crate::protocol::message::replies::Reply;

pub mod events;
pub mod replies;
pub mod errors;

verus! {

/// Generic X11 response type
#[derive(Debug, Clone)]
pub enum Response {
    /// Reply to a request
    Reply(Reply),
    /// Event notification
    Event(Event),
    /// Error response
    Error(ErrorResponse),
}

} // verus!

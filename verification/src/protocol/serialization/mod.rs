//! X11 Protocol Serialization
//!
//! This module handles the conversion of X11 protocol messages to and from wire format.
//! It provides a centralized location for all serialization logic, ensuring consistency
//! and maintainability.

use vstd::prelude::*;
use crate::protocol::buffers::{buffer_limit, bytes_mut_new, bytes_mut_to_vec};
use crate::protocol::message::Response;
use crate::protocol::serialization::errors::{error_bytes, serialize_error};
use crate::protocol::serialization::events::{event_bytes, serialize_event};
use crate::protocol::serialization::replies::{reply_bytes, serialize_reply};

pub mod events;
pub mod replies;
pub mod errors;
pub mod wire;

verus! {

/// The wire bytes of a response; `sequence` goes into replies.
pub open spec fn response_bytes(response: Response, sequence: u16) -> Seq<u8> {
    match response {
        Response::Reply(reply) => reply_bytes(reply, sequence),
        Response::Event(event) => event_bytes(event),
        Response::Error(error) => error_bytes(error),
    }
}

/// Serializer for X11 protocol responses
pub struct ResponseSerializer;

impl ResponseSerializer {
    /// Serialize a response to wire format bytes
    pub fn serialize(response: &Response, sequence: u16) -> (r: Vec<u8>)
        requires
            response_bytes(*response, sequence).len() + 34 <= buffer_limit(),
        ensures
            r@ == response_bytes(*response, sequence),
    {
        let mut buf = bytes_mut_new();
        match response {
            Response::Reply(reply) => {
                serialize_reply(reply, sequence, &mut buf);
            },
            Response::Event(event) => {
                serialize_event(event, &mut buf);
            },
            Response::Error(error) => {
                serialize_error(error, &mut buf);
            },
        }
        bytes_mut_to_vec(&buf)
    }
}

} // verus!

//! X11 Response Builder
//!
//! Convenience constructors for common responses, over the message types and
//! the serialization module.

use vstd::prelude::*;
use crate::protocol::buffers::buffer_limit;
use crate::protocol::message::errors::ErrorResponse;
use crate::protocol::message::events::Event;
use crate::protocol::message::replies::{GetGeometryReply, GrabPointerReply, InternAtomReply, Reply};
use crate::protocol::message::Response;
use crate::protocol::serialization::{response_bytes, ResponseSerializer};
use crate::protocol::types::Result;

verus! {

/// Builder for constructing X11 protocol responses
pub struct ResponseBuilder;

impl ResponseBuilder {
    /// Create a new response builder
    pub fn new() -> (r: Self) {
        ResponseBuilder
    }

    /// Create an error response
    pub fn error(
        error_code: u8,
        sequence: u16,
        bad_value: u32,
        minor_opcode: u16,
        major_opcode: u8,
    ) -> (r: Response)
        ensures
            r matches Response::Error(e) && e.error_code == error_code && e.sequence_number
                == sequence && e.bad_value == bad_value && e.minor_opcode == minor_opcode
                && e.major_opcode == major_opcode,
    {
        Response::Error(
            ErrorResponse {
                error_code,
                sequence_number: sequence,
                bad_value,
                minor_opcode,
                major_opcode,
            },
        )
    }

    /// Create a success response (a GetGeometry reply of a 1024x768 depth-24 root
    /// stands in for it)
    pub fn success() -> (r: Response)
        ensures
            r == Response::Reply(
                Reply::GetGeometry(
                    GetGeometryReply {
                        depth: 24,
                        root: 1,
                        x: 0,
                        y: 0,
                        width: 1024,
                        height: 768,
                        border_width: 0,
                    },
                ),
            ),
    {
        Response::Reply(
            Reply::GetGeometry(
                GetGeometryReply {
                    depth: 24,
                    root: 1,
                    x: 0,
                    y: 0,
                    width: 1024,
                    height: 768,
                    border_width: 0,
                },
            ),
        )
    }

    /// Serialize a response to wire format, with sequence number 0.
    pub fn serialize(response: &Response) -> (r: Result<Vec<u8>>)
        requires
            response_bytes(*response, 0).len() + 34 <= buffer_limit(),
        ensures
            r matches Ok(b) && b@ == response_bytes(*response, 0),
    {
        Ok(ResponseSerializer::serialize(response, 0))
    }

    /// Create an InternAtom reply
    pub fn intern_atom_reply(atom: u32) -> (r: Response)
        ensures
            r == Response::Reply(Reply::InternAtom(InternAtomReply { atom })),
    {
        Response::Reply(Reply::InternAtom(InternAtomReply { atom }))
    }

    /// Create a GrabPointer reply
    pub fn grab_pointer_reply(status: u8) -> (r: Response)
        ensures
            r == Response::Reply(Reply::GrabPointer(GrabPointerReply { status })),
    {
        Response::Reply(Reply::GrabPointer(GrabPointerReply { status }))
    }

    /// Create an Expose event
    pub fn expose_event(window: u32, x: u16, y: u16, width: u16, height: u16, count: u16) -> (r:
        Response)
        ensures
            r == Response::Event(Event::Expose { window, x, y, width, height, count }),
    {
        Response::Event(Event::Expose { window, x, y, width, height, count })
    }

    /// Create a ConfigureNotify event
    pub fn configure_notify_event(
        event: u32,
        window: u32,
        above_sibling: u32,
        x: i16,
        y: i16,
        width: u16,
        height: u16,
        border_width: u16,
        override_redirect: bool,
    ) -> (r: Response)
        ensures
            r == Response::Event(
                Event::ConfigureNotify {
                    event,
                    window,
                    above_sibling,
                    x,
                    y,
                    width,
                    height,
                    border_width,
                    override_redirect,
                },
            ),
    {
        Response::Event(
            Event::ConfigureNotify {
                event,
                window,
                above_sibling,
                x,
                y,
                width,
                height,
                border_width,
                override_redirect,
            },
        )
    }
}

impl Default for ResponseBuilder {
    fn default() -> (r: Self) {
        Self::new()
    }
}

} // verus!

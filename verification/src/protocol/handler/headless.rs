//! Headless Protocol Handler
//!
//! A protocol handler that operates without any visual display. It registers
//! for window, graphics-context and drawing requests and answers each with
//! "unimplemented".

use vstd::prelude::*;
use crate::protocol::error::{ProtocolError, ServerError, ServerResult};
use crate::protocol::opcodes::graphics::{
    CHANGE_GC, CREATE_GC, FILL_POLY, FREE_GC, POLY_ARC, POLY_FILL_ARC, POLY_FILL_RECTANGLE,
    POLY_LINE, POLY_POINT, POLY_RECTANGLE, POLY_SEGMENT,
};
use crate::protocol::opcodes::window::{
    CONFIGURE_WINDOW, CREATE_WINDOW, DESTROY_WINDOW, MAP_WINDOW, UNMAP_WINDOW,
};
use crate::protocol::types::Opcode;
use crate::protocol::wire::{WireRequest, WireResponse};

verus! {

/// Protocol handler that operates without visual display
#[derive(Clone)]
pub struct HeadlessProtocolHandler {}

/// The opcodes the headless handler registers for, in registration order.
pub open spec fn headless_opcodes() -> Seq<Opcode> {
    seq![
        Opcode::Core(CREATE_WINDOW),
        Opcode::Core(DESTROY_WINDOW),
        Opcode::Core(MAP_WINDOW),
        Opcode::Core(UNMAP_WINDOW),
        Opcode::Core(CONFIGURE_WINDOW),
        Opcode::Core(CREATE_GC),
        Opcode::Core(FREE_GC),
        Opcode::Core(CHANGE_GC),
        Opcode::Core(POLY_POINT),
        Opcode::Core(POLY_LINE),
        Opcode::Core(POLY_SEGMENT),
        Opcode::Core(POLY_RECTANGLE),
        Opcode::Core(POLY_ARC),
        Opcode::Core(FILL_POLY),
        Opcode::Core(POLY_FILL_RECTANGLE),
        Opcode::Core(POLY_FILL_ARC),
    ]
}

impl HeadlessProtocolHandler {
    pub fn new() -> (r: ServerResult<Self>)
        ensures
            r is Ok,
    {
        Ok(Self {  })
    }

    /// Every request, whatever its opcode, is refused as unimplemented.
    pub fn handle_request(&self, client_id: u32, request: &WireRequest) -> (r: ServerResult<
        Option<WireResponse>,
    >)
        ensures
            r == Err::<Option<WireResponse>, ServerError>(
                ServerError::ProtocolError(ProtocolError::UnimplementedOpcode(request.opcode)),
            ),
    {
        Err(ServerError::ProtocolError(ProtocolError::UnimplementedOpcode(request.opcode)))
    }

    /// The opcodes this handler registers for.
    pub fn supported_opcodes(&self) -> (v: Vec<Opcode>)
        ensures
            v@ == headless_opcodes(),
    {
        let v = vec![
            Opcode::Core(CREATE_WINDOW),
            Opcode::Core(DESTROY_WINDOW),
            Opcode::Core(MAP_WINDOW),
            Opcode::Core(UNMAP_WINDOW),
            Opcode::Core(CONFIGURE_WINDOW),
            Opcode::Core(CREATE_GC),
            Opcode::Core(FREE_GC),
            Opcode::Core(CHANGE_GC),
            Opcode::Core(POLY_POINT),
            Opcode::Core(POLY_LINE),
            Opcode::Core(POLY_SEGMENT),
            Opcode::Core(POLY_RECTANGLE),
            Opcode::Core(POLY_ARC),
            Opcode::Core(FILL_POLY),
            Opcode::Core(POLY_FILL_RECTANGLE),
            Opcode::Core(POLY_FILL_ARC),
        ];
        assert(v@ =~= headless_opcodes());
        v
    }
}

} // verus!

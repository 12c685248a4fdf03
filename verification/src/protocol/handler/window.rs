//! Window Protocol Handler
//!
//! Registers for the window requests; none of them is implemented yet.

use vstd::prelude::*;
use crate::protocol::error::{ProtocolError, ServerError, ServerResult};
use crate::protocol::opcodes::window::{
    CONFIGURE_WINDOW, CREATE_WINDOW, DESTROY_WINDOW, GET_GEOMETRY, MAP_WINDOW, UNMAP_WINDOW,
};
use crate::protocol::types::Opcode;
use crate::protocol::wire::{WireRequest, WireResponse};

verus! {

/// Protocol handler specialized for window operations
pub struct WindowProtocolHandler {}

impl WindowProtocolHandler {
    pub fn new() -> (r: Self) {
        Self {  }
    }

    /// Every request, whatever its opcode, is refused as unimplemented.
    pub fn handle_request(&self, client_id: u32, request: &WireRequest) -> (r: ServerResult<
        Option<WireResponse>,
    >)
        ensures
            r == Err::<Option<WireResponse>, ServerError>(
                ServerError::ProtocolError(ProtocolError::UnimplementedOpcode(request.opcode)),
            ),
    {
        Err(ServerError::ProtocolError(ProtocolError::UnimplementedOpcode(request.opcode)))
    }

    /// The opcodes this handler registers for.
    pub fn supported_opcodes(&self) -> (v: Vec<Opcode>)
        ensures
            v@ == seq![
                Opcode::Core(CREATE_WINDOW),
                Opcode::Core(DESTROY_WINDOW),
                Opcode::Core(MAP_WINDOW),
                Opcode::Core(UNMAP_WINDOW),
                Opcode::Core(CONFIGURE_WINDOW),
                Opcode::Core(GET_GEOMETRY),
            ],
    {
        let v = vec![
            Opcode::Core(CREATE_WINDOW),
            Opcode::Core(DESTROY_WINDOW),
            Opcode::Core(MAP_WINDOW),
            Opcode::Core(UNMAP_WINDOW),
            Opcode::Core(CONFIGURE_WINDOW),
            Opcode::Core(GET_GEOMETRY),
        ];
        assert(v@ =~= seq![
            Opcode::Core(CREATE_WINDOW),
            Opcode::Core(DESTROY_WINDOW),
            Opcode::Core(MAP_WINDOW),
            Opcode::Core(UNMAP_WINDOW),
            Opcode::Core(CONFIGURE_WINDOW),
            Opcode::Core(GET_GEOMETRY),
        ]);
        v
    }
}

} // verus!

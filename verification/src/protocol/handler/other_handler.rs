//! Core X11 request handler.
//!
//! Registers for the core window and atom requests. Window creation,
//! attribute changes, attribute queries and destruction have no
//! implementation yet and must not be routed here.

use vstd::prelude::*;
use crate::protocol::error::{ProtocolError, ServerError, ServerResult};
use crate::protocol::opcodes::atom::{GET_ATOM_NAME, INTERN_ATOM};
use crate::protocol::opcodes::window::{
    CHANGE_SAVE_SET, CHANGE_WINDOW_ATTRIBUTES, CIRCULATE_WINDOW, CONFIGURE_WINDOW, CREATE_WINDOW,
    DESTROY_SUBWINDOWS, DESTROY_WINDOW, GET_GEOMETRY, GET_WINDOW_ATTRIBUTES, MAP_SUBWINDOWS,
    MAP_WINDOW, QUERY_TREE, REPARENT_WINDOW, UNMAP_SUBWINDOWS, UNMAP_WINDOW,
};
use crate::protocol::types::Opcode;
use crate::protocol::wire::{WireRequest, WireResponse};

verus! {

pub type Atom = u32;

/// The atom `None`.
pub const NONE: Atom = 0;

/// Core X11 request handler
pub struct CoreProtocolHandler {}

/// The core opcodes whose handlers are still to be written.
pub open spec fn unwritten_core_opcode(op: Opcode) -> bool {
    op matches Opcode::Core(n) && 1 <= n <= 4
}

/// The opcodes the core handler registers for, in registration order.
pub open spec fn core_handler_opcodes() -> Seq<Opcode> {
    seq![
        Opcode::Core(CREATE_WINDOW),
        Opcode::Core(CHANGE_WINDOW_ATTRIBUTES),
        Opcode::Core(GET_WINDOW_ATTRIBUTES),
        Opcode::Core(DESTROY_WINDOW),
        Opcode::Core(DESTROY_SUBWINDOWS),
        Opcode::Core(CHANGE_SAVE_SET),
        Opcode::Core(REPARENT_WINDOW),
        Opcode::Core(MAP_WINDOW),
        Opcode::Core(MAP_SUBWINDOWS),
        Opcode::Core(UNMAP_WINDOW),
        Opcode::Core(UNMAP_SUBWINDOWS),
        Opcode::Core(CONFIGURE_WINDOW),
        Opcode::Core(CIRCULATE_WINDOW),
        Opcode::Core(GET_GEOMETRY),
        Opcode::Core(QUERY_TREE),
        Opcode::Core(INTERN_ATOM),
        Opcode::Core(GET_ATOM_NAME),
    ]
}

impl CoreProtocolHandler {
    pub fn new() -> (r: Self) {
        Self {  }
    }

    /// Any request other than the four whose handlers are still to be written is
    /// refused as unsupported.
    pub fn handle_request(&self, client_id: u32, request: &WireRequest) -> (r: ServerResult<
        Option<WireResponse>,
    >)
        requires
            !unwritten_core_opcode(request.opcode),
        ensures
            r == Err::<Option<WireResponse>, ServerError>(
                ServerError::ProtocolError(ProtocolError::UnsupportedOpcode(request.opcode)),
            ),
    {
        Err(ServerError::ProtocolError(ProtocolError::UnsupportedOpcode(request.opcode)))
    }

    /// The opcodes this handler registers for.
    pub fn supported_opcodes(&self) -> (v: Vec<Opcode>)
        ensures
            v@ == core_handler_opcodes(),
    {
        let v = vec![
            Opcode::Core(CREATE_WINDOW),
            Opcode::Core(CHANGE_WINDOW_ATTRIBUTES),
            Opcode::Core(GET_WINDOW_ATTRIBUTES),
            Opcode::Core(DESTROY_WINDOW),
            Opcode::Core(DESTROY_SUBWINDOWS),
            Opcode::Core(CHANGE_SAVE_SET),
            Opcode::Core(REPARENT_WINDOW),
            Opcode::Core(MAP_WINDOW),
            Opcode::Core(MAP_SUBWINDOWS),
            Opcode::Core(UNMAP_WINDOW),
            Opcode::Core(UNMAP_SUBWINDOWS),
            Opcode::Core(CONFIGURE_WINDOW),
            Opcode::Core(CIRCULATE_WINDOW),
            Opcode::Core(GET_GEOMETRY),
            Opcode::Core(QUERY_TREE),
            Opcode::Core(INTERN_ATOM),
            Opcode::Core(GET_ATOM_NAME),
        ];
        assert(v@ =~= core_handler_opcodes());
        v
    }
}

} // verus!

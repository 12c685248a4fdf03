//! Surface Protocol Handler
//!
//! Registers for the graphics-context requests; none of them is implemented yet.

use vstd::prelude::*;
use crate::protocol::error::{ProtocolError, ServerError, ServerResult};
use crate::protocol::opcodes::graphics::{
    CHANGE_GC, COPY_GC, CREATE_GC, FREE_GC, SET_CLIP_RECTANGLES, SET_DASHES,
};
use crate::protocol::types::Opcode;
use crate::protocol::wire::WireResponse;

verus! {

/// Protocol handler specialized for surface/graphics operations, on a surface of
/// the given size and depth.
pub struct SurfaceProtocolHandler {
    pub width: u32,
    pub height: u32,
    pub depth: u8,
}

impl SurfaceProtocolHandler {
    pub fn new(width: u32, height: u32, depth: u8) -> (r: Self)
        ensures
            r.width == width,
            r.height == height,
            r.depth == depth,
    {
        Self { width, height, depth }
    }

    /// Every request, whatever its opcode, is refused as unimplemented.
    pub fn handle_request(&self, client_id: u32, opcode: Opcode) -> (r: ServerResult<
        Option<WireResponse>,
    >)
        ensures
            r == Err::<Option<WireResponse>, ServerError>(
                ServerError::ProtocolError(ProtocolError::UnimplementedOpcode(opcode)),
            ),
    {
        Err(ServerError::ProtocolError(ProtocolError::UnimplementedOpcode(opcode)))
    }

    /// The opcodes this handler registers for.
    pub fn supported_opcodes(&self) -> (v: Vec<Opcode>)
        ensures
            v@ == seq![
                Opcode::Core(CREATE_GC),
                Opcode::Core(FREE_GC),
                Opcode::Core(CHANGE_GC),
                Opcode::Core(COPY_GC),
                Opcode::Core(SET_DASHES),
                Opcode::Core(SET_CLIP_RECTANGLES),
            ],
    {
        let v = vec![
            Opcode::Core(CREATE_GC),
            Opcode::Core(FREE_GC),
            Opcode::Core(CHANGE_GC),
            Opcode::Core(COPY_GC),
            Opcode::Core(SET_DASHES),
            Opcode::Core(SET_CLIP_RECTANGLES),
        ];
        assert(v@ =~= seq![
            Opcode::Core(CREATE_GC),
            Opcode::Core(FREE_GC),
            Opcode::Core(CHANGE_GC),
            Opcode::Core(COPY_GC),
            Opcode::Core(SET_DASHES),
            Opcode::Core(SET_CLIP_RECTANGLES),
        ]);
        v
    }
}

} // verus!

//! Native Display Protocol Handler
//!
//! A handler meant to draw straight to the display hardware; for now it
//! answers window requests with fixed replies and refuses drawing.

use vstd::prelude::*;
use crate::protocol::endianness::{le32, zeros};
use crate::protocol::error::{ProtocolError, ServerError, ServerResult};
use crate::protocol::handler::default::{placeholder_reply, placeholder_response};
use crate::protocol::handler::virtual_display::{
    virtual_display_opcodes, VIRTUAL_WINDOW_ID,
};
use crate::protocol::opcodes::graphics::{
    CHANGE_GC, COPY_AREA, COPY_PLANE, CREATE_GC, FILL_POLY, FREE_GC, GET_IMAGE, POLY_ARC,
    POLY_FILL_ARC, POLY_FILL_RECTANGLE, POLY_LINE, POLY_POINT, POLY_RECTANGLE, POLY_SEGMENT,
    PUT_IMAGE,
};
use crate::protocol::opcodes::text::{IMAGE_TEXT16, IMAGE_TEXT8, POLY_TEXT16, POLY_TEXT8};
use crate::protocol::opcodes::window::{
    CONFIGURE_WINDOW, CREATE_WINDOW, DESTROY_WINDOW, MAP_WINDOW, UNMAP_WINDOW,
};
use crate::protocol::types::Opcode;
use crate::protocol::wire::WireResponse;

verus! {

/// Protocol handler for a display driven directly, of the given size.
#[derive(Clone)]
pub struct NativeDisplayProtocolHandler {
    pub display_width: u32,
    pub display_height: u32,
}

impl NativeDisplayProtocolHandler {
    pub fn new(width: u32, height: u32) -> (r: ServerResult<Self>)
        ensures
            r matches Ok(h) && h.display_width == width && h.display_height == height,
    {
        Ok(Self { display_width: width, display_height: height })
    }

    /// CreateWindow gets the display's window id in the first four of 32 bytes;
    /// MapWindow, UnmapWindow and DestroyWindow get the placeholder reply; CreateGC
    /// gets no reply; drawing and every other request are unimplemented.
    pub fn handle_request(&self, client_id: u32, opcode: Opcode) -> (r: ServerResult<
        Option<WireResponse>,
    >)
        ensures
            opcode == Opcode::Core(CREATE_WINDOW) ==> (r matches Ok(Some(resp))
                && resp.response_type == 1 && resp.data@ == le32(VIRTUAL_WINDOW_ID) + zeros(28)),
            (opcode == Opcode::Core(MAP_WINDOW) || opcode == Opcode::Core(UNMAP_WINDOW) || opcode
                == Opcode::Core(DESTROY_WINDOW)) ==> (r matches Ok(Some(resp)) && placeholder_reply(
                resp,
            )),
            opcode == Opcode::Core(CREATE_GC) ==> r matches Ok(None),
            !(opcode == Opcode::Core(CREATE_WINDOW) || opcode == Opcode::Core(MAP_WINDOW) || opcode
                == Opcode::Core(UNMAP_WINDOW) || opcode == Opcode::Core(DESTROY_WINDOW) || opcode
                == Opcode::Core(CREATE_GC)) ==> r == Err::<Option<WireResponse>, ServerError>(
                ServerError::ProtocolError(ProtocolError::UnimplementedOpcode(opcode)),
            ),
    {
        if opcode == Opcode::Core(CREATE_WINDOW) {
            let id = crate::protocol::endianness::encode_u32(
                VIRTUAL_WINDOW_ID,
                crate::protocol::types::ByteOrder::LittleEndian,
            );
            let mut data: Vec<u8> = Vec::new();
            data.extend_from_slice(&id);
            let mut i: usize = 0;
            while i < 28
                invariant
                    i <= 28,
                    data@ == le32(VIRTUAL_WINDOW_ID) + zeros(i as nat),
                decreases 28 - i,
            {
                data.push(0u8);
                i = i + 1;
                assert(data@ =~= le32(VIRTUAL_WINDOW_ID) + zeros(i as nat));
            }
            Ok(Some(WireResponse { response_type: 1, data }))
        } else if opcode == Opcode::Core(MAP_WINDOW) || opcode == Opcode::Core(UNMAP_WINDOW)
            || opcode == Opcode::Core(DESTROY_WINDOW) {
            Ok(Some(placeholder_response()))
        } else if opcode == Opcode::Core(CREATE_GC) {
            Ok(None)
        } else {
            Err(ServerError::ProtocolError(ProtocolError::UnimplementedOpcode(opcode)))
        }
    }

    /// The opcodes this handler registers for: those of the virtual display, then the
    /// image and copy requests.
    pub fn supported_opcodes(&self) -> (v: Vec<Opcode>)
        ensures
            v@ == virtual_display_opcodes() + seq![
                Opcode::Core(PUT_IMAGE),
                Opcode::Core(GET_IMAGE),
                Opcode::Core(COPY_AREA),
                Opcode::Core(COPY_PLANE),
            ],
    {
        let v = vec![
            Opcode::Core(CREATE_WINDOW),
            Opcode::Core(DESTROY_WINDOW),
            Opcode::Core(MAP_WINDOW),
            Opcode::Core(UNMAP_WINDOW),
            Opcode::Core(CONFIGURE_WINDOW),
            Opcode::Core(CREATE_GC),
            Opcode::Core(FREE_GC),
            Opcode::Core(CHANGE_GC),
            Opcode::Core(POLY_POINT),
            Opcode::Core(POLY_LINE),
            Opcode::Core(POLY_SEGMENT),
            Opcode::Core(POLY_RECTANGLE),
            Opcode::Core(POLY_ARC),
            Opcode::Core(FILL_POLY),
            Opcode::Core(POLY_FILL_RECTANGLE),
            Opcode::Core(POLY_FILL_ARC),
            Opcode::Core(POLY_TEXT8),
            Opcode::Core(POLY_TEXT16),
            Opcode::Core(IMAGE_TEXT8),
            Opcode::Core(IMAGE_TEXT16),
            Opcode::Core(PUT_IMAGE),
            Opcode::Core(GET_IMAGE),
            Opcode::Core(COPY_AREA),
            Opcode::Core(COPY_PLANE),
        ];
        assert(v@ =~= virtual_display_opcodes() + seq![
            Opcode::Core(PUT_IMAGE),
            Opcode::Core(GET_IMAGE),
            Opcode::Core(COPY_AREA),
            Opcode::Core(COPY_PLANE),
        ]);
        v
    }
}

} // verus!

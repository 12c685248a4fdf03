//! Default Protocol Handler Implementation
//!
//! Answers window creation and destruction with a placeholder reply while the
//! window manager plugin is loaded; every other request is unimplemented.

use vstd::prelude::*;
use crate::protocol::error::{ProtocolError, ServerError, ServerResult};
use crate::protocol::opcodes::window::{CREATE_WINDOW, DESTROY_WINDOW, MAP_WINDOW, UNMAP_WINDOW};
use crate::protocol::types::Opcode;
use crate::protocol::wire::{WireRequest, WireResponse};

verus! {

/// Default implementation of ProtocolHandler
#[derive(Clone)]
pub struct DefaultProtocolHandler {}

/// The placeholder success reply: type 1 and 32 zero bytes.
pub open spec fn placeholder_reply(r: WireResponse) -> bool {
    r.response_type == 1 && r.data@ == Seq::new(32, |i: int| 0u8)
}

/// A reply of type 1 with 32 zero bytes.
pub fn placeholder_response() -> (r: WireResponse)
    ensures
        placeholder_reply(r),
{
    let mut data: Vec<u8> = Vec::new();
    let mut i: usize = 0;
    while i < 32
        invariant
            i <= 32,
            data@ == Seq::new(i as nat, |k: int| 0u8),
        decreases 32 - i,
    {
        data.push(0u8);
        i = i + 1;
        assert(data@ =~= Seq::new(i as nat, |k: int| 0u8));
    }
    WireResponse { response_type: 1, data }
}

impl DefaultProtocolHandler {
    /// Create a new DefaultProtocolHandler
    pub fn new() -> (r: ServerResult<Self>)
        ensures
            r is Ok,
    {
        Ok(Self {  })
    }

    /// Route a request by opcode. CreateWindow and DestroyWindow get the placeholder
    /// reply when the window manager plugin is loaded and a plugin error when it is
    /// not; any other opcode is unimplemented.
    pub fn handle_request(
        &self,
        client_id: u32,
        request: &WireRequest,
        window_manager_loaded: bool,
    ) -> (r: ServerResult<Option<WireResponse>>)
        ensures
            (request.opcode == Opcode::Core(CREATE_WINDOW) || request.opcode == Opcode::Core(
                DESTROY_WINDOW,
            )) ==> if window_manager_loaded {
                r matches Ok(Some(resp)) && placeholder_reply(resp)
            } else {
                r matches Err(ServerError::PluginError(m)) && m@
                    == "WindowManager plugin not found"@
            },
            !(request.opcode == Opcode::Core(CREATE_WINDOW) || request.opcode == Opcode::Core(
                DESTROY_WINDOW,
            )) ==> r == Err::<Option<WireResponse>, ServerError>(
                ServerError::ProtocolError(ProtocolError::UnimplementedOpcode(request.opcode)),
            ),
    {
        if request.opcode == Opcode::Core(CREATE_WINDOW) || request.opcode == Opcode::Core(
            DESTROY_WINDOW,
        ) {
            if window_manager_loaded {
                Ok(Some(placeholder_response()))
            } else {
                Err(ServerError::PluginError("WindowManager plugin not found".to_owned()))
            }
        } else {
            Err(ServerError::ProtocolError(ProtocolError::UnimplementedOpcode(request.opcode)))
        }
    }

    /// The opcodes this handler registers for.
    pub fn supported_opcodes(&self) -> (v: Vec<Opcode>)
        ensures
            v@ == seq![
                Opcode::Core(CREATE_WINDOW),
                Opcode::Core(DESTROY_WINDOW),
                Opcode::Core(MAP_WINDOW),
                Opcode::Core(UNMAP_WINDOW),
            ],
    {
        let v = vec![
            Opcode::Core(CREATE_WINDOW),
            Opcode::Core(DESTROY_WINDOW),
            Opcode::Core(MAP_WINDOW),
            Opcode::Core(UNMAP_WINDOW),
        ];
        assert(v@ =~= seq![
            Opcode::Core(CREATE_WINDOW),
            Opcode::Core(DESTROY_WINDOW),
            Opcode::Core(MAP_WINDOW),
            Opcode::Core(UNMAP_WINDOW),
        ]);
        v
    }
}

} // verus!

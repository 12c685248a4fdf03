//! Registry that routes each request opcode to the handler registered for it.
//!
//! Handlers are known here by the number the registry gives them when they
//! register, in registration order from 0; the connection keeps the handler
//! objects and asks the registry which one a request goes to.

use vstd::prelude::*;
use std::collections::HashMap;
use crate::protocol::buffers::buffer_limit;
use crate::protocol::error::{ProtocolError, ServerError, ServerResult};
use crate::protocol::handshake::DisplayConfig;
use crate::protocol::types::Opcode;
use crate::protocol::wire::{encode_response, response_wire_bytes, WireResponse};

verus! {

broadcast use vstd::std_specs::hash::group_hash_axioms;

/// The number an opcode is filed under: a core opcode's own number, an
/// extension request's 65536 + 256 * major + minor.
pub open spec fn opcode_key(op: Opcode) -> u32 {
    match op {
        Opcode::Core(n) => n as u32,
        Opcode::Extension(major, minor) => (65536 + 256 * major + minor) as u32,
    }
}

/// The opcode filed under `k`.
pub open spec fn key_opcode(k: u32) -> Opcode {
    if k < 65536 {
        Opcode::Core(k as u8)
    } else {
        Opcode::Extension(((k - 65536) / 256) as u8, ((k - 65536) % 256) as u8)
    }
}

/// A number some opcode is filed under.
pub open spec fn is_opcode_key(k: u32) -> bool {
    k < 256 || 65536 <= k < 131072
}

/// Different opcodes are filed under different numbers, and each number leads
/// back to its opcode.
pub proof fn lemma_opcode_key_round_trip(op: Opcode)
    ensures
        is_opcode_key(opcode_key(op)),
        key_opcode(opcode_key(op)) == op,
{
}

/// The number `op` is filed under.
pub fn opcode_key_of(op: Opcode) -> (k: u32)
    ensures
        k == opcode_key(op),
{
    match op {
        Opcode::Core(n) => n as u32,
        Opcode::Extension(major, minor) => 65536 + 256 * (major as u32) + minor as u32,
    }
}

/// Registry that manages and routes requests to specialized protocol handlers
pub struct ProtocolHandlerRegistry {
    routes: HashMap<u32, usize>,
    handler_count: usize,
    routed: Vec<usize>,
    display_config: Option<DisplayConfig>,
}

/// `routed` holds exactly the handlers some entry of `routes` names.
pub open spec fn routed_exactly(routes: Map<u32, usize>, routed: Seq<usize>) -> bool {
    forall|id: usize|
        #![trigger routed.contains(id)]
        routed.contains(id) <==> exists|k: u32| #[trigger] routes.contains_key(k) && routes[k] == id
}

/// Whether some opcode is routed to handler `id`.
pub open spec fn routes_to(reg: &ProtocolHandlerRegistry, id: usize) -> bool {
    exists|op: Opcode| #[trigger] reg.route(op) == Some(id)
}

impl ProtocolHandlerRegistry {
    #[verifier::type_invariant]
    spec fn inv(&self) -> bool {
        &&& forall|k: u32| #[trigger]
            self.routes@.contains_key(k) ==> is_opcode_key(k) && self.routes@[k]
                < self.handler_count
        &&& forall|i: int, j: int|
            0 <= i < j < self.routed@.len() ==> self.routed@[i] < self.routed@[j]
        &&& forall|i: int|
            0 <= i < self.routed@.len() ==> #[trigger] self.routed@[i] < self.handler_count
        &&& routed_exactly(self.routes@, self.routed@)
    }

    /// The handler an opcode is routed to.
    pub closed spec fn route(&self, op: Opcode) -> Option<usize> {
        if self.routes@.contains_key(opcode_key(op)) {
            Some(self.routes@[opcode_key(op)])
        } else {
            None
        }
    }

    /// How many handlers have registered.
    pub closed spec fn handlers(&self) -> nat {
        self.handler_count as nat
    }

    /// The display configuration handed to the handshake.
    pub closed spec fn config(&self) -> Option<DisplayConfig> {
        self.display_config
    }

    pub fn new() -> (r: Self)
        ensures
            forall|op: Opcode| r.route(op) is None,
            r.handlers() == 0,
            r.config() is None,
    {
        Self { routes: HashMap::new(), handler_count: 0, routed: Vec::new(), display_config: None }
    }

    pub fn with_display_config(display_config: DisplayConfig) -> (r: Self)
        ensures
            forall|op: Opcode| r.route(op) is None,
            r.handlers() == 0,
            r.config() == Some(display_config),
    {
        Self {
            routes: HashMap::new(),
            handler_count: 0,
            routed: Vec::new(),
            display_config: Some(display_config),
        }
    }

    pub fn set_display_config(&mut self, display_config: DisplayConfig)
        ensures
            forall|op: Opcode| final(self).route(op) == old(self).route(op),
            final(self).handlers() == old(self).handlers(),
            final(self).config() == Some(display_config),
    {
        proof {
            use_type_invariant(&*self);
        }
        self.display_config = Some(display_config);
    }

    /// How many handlers have registered.
    pub fn handler_count(&self) -> (n: usize)
        ensures
            n == self.handlers(),
    {
        self.handler_count
    }

    /// The display configuration, if one was given.
    pub fn display_config(&self) -> (c: Option<DisplayConfig>)
        ensures
            c == self.config(),
    {
        self.display_config
    }

    /// Register a handler for the opcodes it supports. When one of them is taken
    /// already, the first such opcode is refused and nothing changes; otherwise the
    /// handler gets the next number and every one of its opcodes routes to it.
    pub fn register_handler(&mut self, opcodes: &[Opcode]) -> (r: ServerResult<usize>)
        requires
            old(self).handlers() < usize::MAX,
        ensures
            (exists|i: int| 0 <= i < opcodes@.len() && (#[trigger] old(self).route(opcodes@[i]))
                is Some) ==> {
                &&& *final(self) == *old(self)
                &&& r matches Err(ServerError::ProtocolError(
                    ProtocolError::OpcodeAlreadyRegistered(op),
                ))
                &&& exists|i: int|
                    0 <= i < opcodes@.len() && op == opcodes@[i] && old(self).route(op) is Some
                        && forall|j: int| 0 <= j < i ==> (#[trigger] old(self).route(opcodes@[j]))
                        is None
            },
            (forall|i: int| 0 <= i < opcodes@.len() ==> (#[trigger] old(self).route(opcodes@[i]))
                is None) ==> {
                &&& r == Ok::<usize, ServerError>(old(self).handlers() as usize)
                &&& final(self).handlers() == old(self).handlers() + 1
                &&& final(self).config() == old(self).config()
                &&& forall|op: Opcode|
                    #[trigger] final(self).route(op) == if opcodes@.contains(op) {
                        Some(old(self).handlers() as usize)
                    } else {
                        old(self).route(op)
                    }
            },
    {
        proof {
            use_type_invariant(&*self);
        }
        let mut i: usize = 0;
        while i < opcodes.len()
            invariant
                i <= opcodes@.len(),
                forall|j: int| 0 <= j < i ==> (#[trigger] self.route(opcodes@[j])) is None,
            decreases opcodes@.len() - i,
        {
            let op = opcodes[i];
            let key = opcode_key_of(op);
            if self.routes.contains_key(&key) {
                return Err(ServerError::ProtocolError(ProtocolError::OpcodeAlreadyRegistered(op)));
            }
            i = i + 1;
        }
        let id = self.handler_count;
        let ghost old_routes = self.routes@;
        let ghost old_routed = self.routed@;
        assert forall|j: int| 0 <= j < opcodes@.len() implies !old_routes.contains_key(
            opcode_key(#[trigger] opcodes@[j]),
        ) by {
            assert(self.route(opcodes@[j]) is None);
        }
        let mut routes = self.routes.clone();
        let mut k: usize = 0;
        while k < opcodes.len()
            invariant
                k <= opcodes@.len(),
                id < usize::MAX,
                forall|j: int| 0 <= j < opcodes@.len() ==> !old_routes.contains_key(
                    opcode_key(#[trigger] opcodes@[j]),
                ),
                forall|key: u32| #[trigger]
                    routes@.contains_key(key) ==> is_opcode_key(key) && routes@[key] <= id,
                forall|key: u32| #[trigger]
                    old_routes.contains_key(key) ==> is_opcode_key(key) && old_routes[key] < id,
                forall|key: u32|
                    #![trigger routes@.contains_key(key)]
                    routes@.contains_key(key) == (old_routes.contains_key(key) || exists|j: int|
                        0 <= j < k && opcode_key(#[trigger] opcodes@[j]) == key),
                forall|key: u32| #[trigger]
                    old_routes.contains_key(key) ==> routes@[key] == old_routes[key],
                forall|j: int| 0 <= j < k ==> routes@[opcode_key(#[trigger] opcodes@[j])] == id,
            decreases opcodes@.len() - k,
        {
            let op = opcodes[k];
            let key = opcode_key_of(op);
            proof {
                lemma_opcode_key_round_trip(op);
            }
            routes.insert(key, id);
            k = k + 1;
        }
        let mut routed = self.routed.clone();
        assert(routed@ =~= old_routed);
        if opcodes.len() > 0 {
            routed.push(id);
        }
        proof {
            assert forall|rid: usize| #![trigger routed@.contains(rid)]
                routed@.contains(rid) <==> exists|key: u32|
                    #[trigger] routes@.contains_key(key) && routes@[key] == rid by {
                if rid == id && opcodes@.len() > 0 {
                    assert(routed@[routed@.len() - 1] == rid);
                    assert(routes@.contains_key(opcode_key(opcodes@[0])));
                }
                if routed@.contains(rid) && rid != id {
                    let t = choose|t: int| 0 <= t < routed@.len() && routed@[t] == rid;
                    assert(old_routed[t] == rid);
                    assert(old_routed.contains(rid));
                    let key = choose|key: u32|
                        #[trigger] old_routes.contains_key(key) && old_routes[key] == rid;
                    assert(routes@.contains_key(key));
                }
                if exists|key: u32| #[trigger] routes@.contains_key(key) && routes@[key] == rid {
                    let key = choose|key: u32|
                        #[trigger] routes@.contains_key(key) && routes@[key] == rid;
                    if old_routes.contains_key(key) {
                        assert(old_routed.contains(rid));
                        let t = choose|t: int| 0 <= t < old_routed.len() && old_routed[t] == rid;
                        assert(routed@[t] == rid);
                    } else {
                        let j = choose|j: int|
                            0 <= j < k && opcode_key(#[trigger] opcodes@[j]) == key;
                        assert(rid == id);
                        assert(opcodes@.len() > 0);
                        assert(routed@[routed@.len() - 1] == rid);
                    }
                }
            }
        }
        assert forall|key: u32| #[trigger] routes@.contains_key(key) implies is_opcode_key(key)
            && routes@[key] < id + 1 by {}
        assert forall|a: int, b: int| 0 <= a < b < routed@.len() implies routed@[a] < routed@[b] by {
            if b < old_routed.len() {
                assert(old_routed[a] < old_routed[b]);
            } else {
                assert(old_routed[a] < id);
            }
        }
        assert forall|a: int| 0 <= a < routed@.len() implies #[trigger] routed@[a] < id + 1 by {
            if a < old_routed.len() {
                assert(old_routed[a] < id);
            }
        }
        *self = Self { routes, handler_count: id + 1, routed, display_config: self.display_config };
        proof {
            assert forall|op: Opcode| #[trigger]
                self.route(op) == if opcodes@.contains(op) {
                    Some(id)
                } else {
                    old(self).route(op)
                } by {
                if opcodes@.contains(op) {
                    let j = choose|j: int| 0 <= j < opcodes@.len() && opcodes@[j] == op;
                    assert(self.routes@.contains_key(opcode_key(opcodes@[j])));
                } else {
                    if self.routes@.contains_key(opcode_key(op)) && !old_routes.contains_key(
                        opcode_key(op),
                    ) {
                        let j = choose|j: int|
                            0 <= j < opcodes@.len() && opcode_key(#[trigger] opcodes@[j])
                                == opcode_key(op);
                        lemma_opcode_key_round_trip(op);
                        lemma_opcode_key_round_trip(opcodes@[j]);
                        assert(opcodes@[j] == op);
                    }
                }
            }
        }
        Ok(id)
    }

    /// The handler a request with this opcode goes to; an opcode no handler
    /// registered for is unimplemented.
    pub fn handler_for(&self, opcode: Opcode) -> (r: ServerResult<usize>)
        ensures
            self.route(opcode) matches Some(id) ==> r == Ok::<usize, ServerError>(id),
            self.route(opcode) is None ==> r == Err::<usize, ServerError>(
                ServerError::ProtocolError(ProtocolError::UnimplementedOpcode(opcode)),
            ),
    {
        let key = opcode_key_of(opcode);
        match self.routes.get(&key) {
            Some(id) => Ok(*id),
            None => Err(ServerError::ProtocolError(ProtocolError::UnimplementedOpcode(opcode))),
        }
    }

    /// The handlers to shut down, each once: those some opcode routes to, in the order
    /// they registered.
    pub fn handlers_to_shut_down(&self) -> (v: Vec<usize>)
        ensures
            forall|i: int, j: int| 0 <= i < j < v@.len() ==> v@[i] < v@[j],
            forall|id: usize| #[trigger] v@.contains(id) <==> routes_to(self, id),
    {
        proof {
            use_type_invariant(self);
        }
        let v = self.routed.clone();
        proof {
            assert(v@ =~= self.routed@);
            assert forall|id: usize| #[trigger] v@.contains(id) <==> routes_to(self, id) by {
                if v@.contains(id) {
                    let key = choose|key: u32|
                        #[trigger] self.routes@.contains_key(key) && self.routes@[key] == id;
                    assert(self.route(key_opcode(key)) == Some(id));
                }
                if routes_to(self, id) {
                    let op = choose|op: Opcode| #[trigger] self.route(op) == Some(id);
                    assert(self.routes@.contains_key(opcode_key(op)));
                }
            }
        }
        v
    }
}

/// The reply a failed request gets on this connection: type 0 and a generic
/// error code with its sequence number left to the writer.
pub open spec fn failure_response(r: WireResponse) -> bool {
    r.response_type == 0 && r.data@ == seq![1u8, 0u8, 0u8, 0u8, 0u8, 0u8, 0u8]
}

pub fn failure_reply() -> (r: WireResponse)
    ensures
        failure_response(r),
{
    let data = vec![1u8, 0u8, 0u8, 0u8, 0u8, 0u8, 0u8];
    assert(data@ =~= seq![1u8, 0u8, 0u8, 0u8, 0u8, 0u8, 0u8]);
    WireResponse { response_type: 0, data }
}

/// What a connection sends after handling the request numbered `sequence`: the
/// handler's reply; nothing when the handler has none; the generic error reply when
/// the handler failed.
pub fn bytes_after_request(outcome: &ServerResult<Option<WireResponse>>, sequence: u16) -> (r:
    Option<Vec<u8>>)
    requires
        outcome matches Ok(Some(resp)) ==> resp.data@.len() + 32 <= buffer_limit(),
    ensures
        outcome matches Ok(Some(resp)) ==> (r matches Some(b) && b@ == response_wire_bytes(
            resp.response_type,
            resp.data@,
            sequence,
        )),
        outcome matches Ok(None) ==> r is None,
        outcome is Err ==> (r matches Some(b) && b@ == response_wire_bytes(
            0,
            seq![1u8, 0u8, 0u8, 0u8, 0u8, 0u8, 0u8],
            sequence,
        )),
{
    match outcome {
        Ok(Some(resp)) => Some(encode_response(resp, sequence)),
        Ok(None) => None,
        Err(_) => {
            let failure = failure_reply();
            Some(encode_response(&failure, sequence))
        },
    }
}

} // verus!

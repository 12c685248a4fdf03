//! Serialization of the envelope responses in `response`.

use vstd::prelude::*;
use super::response::{get_geometry_response_bytes, GetGeometryResponse, Response, ResponseKind};
use super::types::Result;

verus! {

/// Trait for serializing X11 protocol responses
pub trait ResponseSerializer {
    /// The bytes that `serialize` produces for `response`.
    spec fn serialized_bytes(&self, response: &Response) -> Seq<u8>;

    /// The length every serialization of this value has, where it is fixed.
    spec fn fixed_size(&self) -> Option<nat>;

    /// Serialize a response to bytes
    fn serialize(&self, response: &Response) -> (r: Result<Option<Vec<u8>>>)
        ensures
            r matches Ok(Some(b)) && b@ == self.serialized_bytes(response),
            self.fixed_size() matches Some(k) ==> self.serialized_bytes(response).len() == k,
    ;

    /// Get the serialized size without allocating; only a value of fixed size has one.
    fn serialized_size(&self) -> (n: usize)
        requires
            self.fixed_size() is Some,
        ensures
            self.fixed_size() == Some(n as nat),
    ;
}

/// Serializer for GetGeometry responses: the 32 bytes of the reply, whatever the envelope.
impl ResponseSerializer for GetGeometryResponse {
    open spec fn serialized_bytes(&self, response: &Response) -> Seq<u8> {
        get_geometry_response_bytes(*self)
    }

    open spec fn fixed_size(&self) -> Option<nat> {
        Some(32)
    }

    fn serialize(&self, _response: &Response) -> (r: Result<Option<Vec<u8>>>) {
        let mut bytes: Vec<u8> = Vec::with_capacity(32);
        bytes.push(self.response_type);
        bytes.push(self.depth);
        bytes.extend_from_slice(&encode_le16(self.sequence_number));
        bytes.extend_from_slice(&encode_le32(self.length));
        bytes.extend_from_slice(&encode_le32(self.root));
        bytes.extend_from_slice(&encode_le16(self.x as u16));
        bytes.extend_from_slice(&encode_le16(self.y as u16));
        bytes.extend_from_slice(&encode_le16(self.width));
        bytes.extend_from_slice(&encode_le16(self.height));
        bytes.extend_from_slice(&encode_le16(self.border_width));
        bytes.extend_from_slice(&self.unused);
        assert(bytes@ =~= get_geometry_response_bytes(*self));
        Ok(Some(bytes))
    }

    fn serialized_size(&self) -> (n: usize) {
        32
    }
}

fn encode_le16(v: u16) -> (b: [u8; 2])
    ensures
        b@ == super::endianness::le16(v),
{
    super::endianness::encode_u16(v, super::types::ByteOrder::LittleEndian)
}

fn encode_le32(v: u32) -> (b: [u8; 4])
    ensures
        b@ == super::endianness::le32(v),
{
    super::endianness::encode_u32(v, super::types::ByteOrder::LittleEndian)
}

/// Generic response serializer that dispatches to specific serializers
pub struct X11ResponseSerializer;

impl ResponseSerializer for X11ResponseSerializer {
    /// A GetGeometry reply gives its 32 bytes, raw data itself; a bare reply and a
    /// connection setup reply give no bytes.
    open spec fn serialized_bytes(&self, response: &Response) -> Seq<u8> {
        match response.kind {
            ResponseKind::GetGeometry(g) => get_geometry_response_bytes(g),
            ResponseKind::Reply => Seq::empty(),
            ResponseKind::ConnectionSetup(_) => Seq::empty(),
            ResponseKind::Raw(raw) => raw.data@,
        }
    }

    open spec fn fixed_size(&self) -> Option<nat> {
        None
    }

    fn serialize(&self, response: &Response) -> (r: Result<Option<Vec<u8>>>) {
        match &response.kind {
            ResponseKind::GetGeometry(get_geo) => get_geo.serialize(response),
            ResponseKind::Reply => Ok(Some(Vec::new())),
            ResponseKind::ConnectionSetup(_) => Ok(Some(Vec::new())),
            ResponseKind::Raw(raw) => Ok(Some(vstd::slice::slice_to_vec(raw.data))),
        }
    }

    fn serialized_size(&self) -> (n: usize) {
        0
    }
}

} // verus!

//! Property Protocol Handler
//!
//! Handles GetProperty, ChangeProperty and DeleteProperty. GetProperty is
//! answered in two steps: `handle_request` parses what the client asks for,
//! the window properties are looked up with it, and `get_property_reply`
//! builds the reply from what the lookup found and says whether the property
//! is to be deleted.

use vstd::prelude::*;
use crate::protocol::endianness::{decode_u32, encode_u16, encode_u32, le16, le32, le32_at, pad_to, zeros};
use crate::protocol::error::{ProtocolError, ServerError, ServerResult};
use crate::protocol::handler::default::{placeholder_reply, placeholder_response};
use crate::protocol::handshake::decimal;
use crate::protocol::opcodes::atom::{CHANGE_PROPERTY, DELETE_PROPERTY, GET_PROPERTY};
use crate::protocol::types::{ByteOrder, Opcode};
use crate::protocol::wire::{WireRequest, WireResponse};

verus! {

/// Protocol handler specialized for property operations
pub struct PropertyProtocolHandler {}

/// What a GetProperty request asks for.
#[derive(Debug, Clone, Copy, PartialEq, Eq, Structural)]
pub struct GetPropertyParams {
    pub delete: bool,
    pub window: u32,
    pub property: u32,
    pub property_type: u32,
    pub long_offset: u32,
    pub long_length: u32,
}

/// A property as the window properties hold it.
#[derive(Debug, Clone)]
pub struct StoredProperty {
    pub type_atom: u32,
    pub format: u8,
    pub data: Vec<u8>,
}

/// What to do with a request routed to this handler.
#[derive(Debug, Clone)]
pub enum PropertyAction {
    /// Look up the property the client asks for, then call `get_property_reply`.
    LookUp(GetPropertyParams),
    /// Send this reply.
    Reply(WireResponse),
}

/// The fields of a GetProperty request of at least 24 bytes.
pub open spec fn parsed_get_property(data: Seq<u8>) -> GetPropertyParams {
    GetPropertyParams {
        delete: data[1] != 0,
        window: le32_at(data, 4),
        property: le32_at(data, 8),
        property_type: le32_at(data, 12),
        long_offset: le32_at(data, 16),
        long_length: le32_at(data, 20),
    }
}

/// Whether a property format is one the protocol has (0 for no value, else 8, 16 or 32 bits).
pub open spec fn valid_property_format(format: u8) -> bool {
    format == 0 || format == 8 || format == 16 || format == 32
}

/// The value's length in units of its format.
pub open spec fn value_length_units(format: u8, len: nat) -> u32 {
    if format == 8 {
        len as u32
    } else if format == 16 {
        (len / 2) as u32
    } else if format == 32 {
        (len / 4) as u32
    } else {
        0
    }
}

/// The bytes of a GetProperty reply: type 1, format, sequence, the value's length in
/// 4-byte words, type, bytes after, the value's length in format units, 12 unused
/// bytes, the value and zeros to a 4-byte boundary.
pub open spec fn get_property_reply_bytes(
    sequence: u16,
    type_atom: u32,
    format: u8,
    bytes_after: u32,
    value: Seq<u8>,
) -> Seq<u8> {
    seq![1u8, format] + le16(sequence) + le32(((value.len() + 3) / 4) as u32) + le32(type_atom)
        + le32(bytes_after) + le32(value_length_units(format, value.len())) + zeros(12) + value
        + zeros(pad_to(value.len(), 4))
}

/// A GetProperty reply is its 32-byte header and then as many 4-byte words as its
/// length field says, the value padded to a word boundary.
pub proof fn lemma_get_property_reply_length(
    sequence: u16,
    type_atom: u32,
    format: u8,
    bytes_after: u32,
    value: Seq<u8>,
)
    requires
        value.len() + 3 < 0x4_0000_0000,
    ensures
        get_property_reply_bytes(sequence, type_atom, format, bytes_after, value).len() == 32 + 4
            * (((value.len() + 3) / 4) as u32),
{
    let n = value.len();
    assert((n + pad_to(n, 4)) == 4 * ((n + 3) / 4)) by (nonlinear_arith)
        requires
            pad_to(n, 4) == ((4 - (n % 4) as int) % 4 as int) as nat,
    ;
    assert(((n + 3) / 4) < 0x1_0000_0000);
}

/// The reply a GetProperty lookup leads to: the property when it matched the type
/// asked for; its type, format and length with no value when only the type
/// differed; an empty reply (type None, format 0) when there is no such property.
pub open spec fn get_property_reply_for(
    sequence: u16,
    matched: Option<(StoredProperty, u32)>,
    existing: Option<StoredProperty>,
) -> (u32, u8, u32, Seq<u8>) {
    match matched {
        Some((p, after)) => (p.type_atom, p.format, after, p.data@),
        None => match existing {
            Some(p) => (p.type_atom, p.format, p.data@.len() as u32, Seq::empty()),
            None => (0, 0, 0, Seq::empty()),
        },
    }
}

/// `format!` of the message for a property format the protocol does not have.
#[verifier::external_body]
fn invalid_format_message(format: u8) -> (s: String)
    ensures
        s@ == "Invalid property format: "@ + decimal(format as nat),
{
    format!("Invalid property format: {}", format)
}

impl PropertyProtocolHandler {
    pub fn new() -> (r: Self) {
        Self {  }
    }

    /// Parse GetProperty request and extract parameters
    pub fn parse_get_property_request(data: &[u8]) -> (r: ServerResult<GetPropertyParams>)
        ensures
            data@.len() < 24 ==> (r matches Err(ServerError::ProtocolError(
                ProtocolError::InvalidMessage(m),
            )) && m@ == "GetProperty request too short"@),
            data@.len() >= 24 ==> r == Ok::<GetPropertyParams, ServerError>(
                parsed_get_property(data@),
            ),
    {
        if data.len() < 24 {
            return Err(
                ServerError::ProtocolError(
                    ProtocolError::InvalidMessage("GetProperty request too short".to_owned()),
                ),
            );
        }
        let le = ByteOrder::LittleEndian;
        let delete = data[1] != 0;
        let window = decode_u32(data[4], data[5], data[6], data[7], le);
        let property = decode_u32(data[8], data[9], data[10], data[11], le);
        let property_type = decode_u32(data[12], data[13], data[14], data[15], le);
        let long_offset = decode_u32(data[16], data[17], data[18], data[19], le);
        let long_length = decode_u32(data[20], data[21], data[22], data[23], le);
        Ok(GetPropertyParams { delete, window, property, property_type, long_offset, long_length })
    }

    /// Create GetProperty response
    pub fn create_get_property_response(
        sequence: u16,
        type_atom: u32,
        format: u8,
        bytes_after: u32,
        value_data: Vec<u8>,
    ) -> (r: ServerResult<WireResponse>)
        requires
            value_data@.len() + 64 <= usize::MAX,
        ensures
            !valid_property_format(format) ==> (r matches Err(ServerError::ProtocolError(
                ProtocolError::InvalidMessage(m),
            )) && m@ == "Invalid property format: "@ + decimal(format as nat)),
            valid_property_format(format) ==> (r matches Ok(resp) && resp.response_type == 1
                && resp.data@ == get_property_reply_bytes(
                sequence,
                type_atom,
                format,
                bytes_after,
                value_data@,
            )),
    {
        let le = ByteOrder::LittleEndian;
        let value_len = value_data.len();
        let units: u32 = if format == 0 {
            0
        } else if format == 8 {
            value_len as u32
        } else if format == 16 {
            (value_len / 2) as u32
        } else if format == 32 {
            (value_len / 4) as u32
        } else {
            return Err(
                ServerError::ProtocolError(
                    ProtocolError::InvalidMessage(invalid_format_message(format)),
                ),
            );
        };
        let mut response_data: Vec<u8> = Vec::new();
        response_data.push(1u8);
        response_data.push(format);
        response_data.extend_from_slice(&encode_u16(sequence, le));
        let reply_length: u32 = ((value_len + 3) / 4) as u32;
        response_data.extend_from_slice(&encode_u32(reply_length, le));
        response_data.extend_from_slice(&encode_u32(type_atom, le));
        response_data.extend_from_slice(&encode_u32(bytes_after, le));
        response_data.extend_from_slice(&encode_u32(units, le));
        let ghost header = response_data@;
        let mut i: usize = 0;
        while i < 12
            invariant
                i <= 12,
                response_data@ == header + zeros(i as nat),
            decreases 12 - i,
        {
            response_data.push(0u8);
            i = i + 1;
            assert(response_data@ =~= header + zeros(i as nat));
        }
        response_data.extend_from_slice(value_data.as_slice());
        let ghost body = response_data@;
        let padding = (4 - value_len % 4) % 4;
        let mut k: usize = 0;
        while k < padding
            invariant
                k <= padding,
                padding < 4,
                response_data@ == body + zeros(k as nat),
            decreases padding - k,
        {
            response_data.push(0u8);
            k = k + 1;
            assert(response_data@ =~= body + zeros(k as nat));
        }
        assert(padding == pad_to(value_data@.len(), 4));
        assert(response_data@ =~= get_property_reply_bytes(
            sequence,
            type_atom,
            format,
            bytes_after,
            value_data@,
        ));
        Ok(WireResponse { response_type: 1, data: response_data })
    }

    /// Route a request: GetProperty is parsed for a lookup; ChangeProperty and
    /// DeleteProperty are answered with the placeholder reply; any other opcode is
    /// unimplemented.
    pub fn handle_request(&self, client_id: u32, request: &WireRequest) -> (r: ServerResult<
        PropertyAction,
    >)
        ensures
            request.opcode == Opcode::Core(GET_PROPERTY) ==> (if request.data@.len() < 24 {
                r matches Err(ServerError::ProtocolError(ProtocolError::InvalidMessage(m)))
                    && m@ == "GetProperty request too short"@
            } else {
                r == Ok::<PropertyAction, ServerError>(
                    PropertyAction::LookUp(parsed_get_property(request.data@)),
                )
            }),
            (request.opcode == Opcode::Core(CHANGE_PROPERTY) || request.opcode == Opcode::Core(
                DELETE_PROPERTY,
            )) ==> (r matches Ok(PropertyAction::Reply(resp)) && placeholder_reply(resp)),
            !(request.opcode == Opcode::Core(GET_PROPERTY) || request.opcode == Opcode::Core(
                CHANGE_PROPERTY,
            ) || request.opcode == Opcode::Core(DELETE_PROPERTY)) ==> r == Err::<
                PropertyAction,
                ServerError,
            >(ServerError::ProtocolError(ProtocolError::UnimplementedOpcode(request.opcode))),
    {
        if request.opcode == Opcode::Core(GET_PROPERTY) {
            match Self::parse_get_property_request(request.data.as_slice()) {
                Ok(params) => Ok(PropertyAction::LookUp(params)),
                Err(e) => Err(e),
            }
        } else if request.opcode == Opcode::Core(CHANGE_PROPERTY) || request.opcode
            == Opcode::Core(DELETE_PROPERTY) {
            Ok(PropertyAction::Reply(placeholder_response()))
        } else {
            Err(ServerError::ProtocolError(ProtocolError::UnimplementedOpcode(request.opcode)))
        }
    }

    /// The GetProperty reply for what the lookups found, and whether the property is
    /// now to be deleted: `matched` is the lookup with the client's type filter, offset
    /// and length (the property and the bytes after the part returned), `existing`
    /// the lookup of the same property with any type. The property is deleted when the
    /// client asked for it and the matched lookup left no bytes after.
    pub fn get_property_reply(
        sequence: u16,
        params: GetPropertyParams,
        matched: Option<(StoredProperty, u32)>,
        existing: Option<StoredProperty>,
    ) -> (r: ServerResult<(WireResponse, bool)>)
        requires
            matched matches Some((p, _)) ==> p.data@.len() + 64 <= usize::MAX,
            existing matches Some(p) ==> p.data@.len() <= u32::MAX,
        ensures
            ({
                let (t, f, after, value) = get_property_reply_for(sequence, matched, existing);
                &&& !valid_property_format(f) ==> (r matches Err(ServerError::ProtocolError(
                    ProtocolError::InvalidMessage(m),
                )) && m@ == "Invalid property format: "@ + decimal(f as nat))
                &&& valid_property_format(f) ==> (r matches Ok((resp, delete)) && resp.response_type
                    == 1 && resp.data@ == get_property_reply_bytes(sequence, t, f, after, value)
                    && delete == (params.delete && (matched matches Some((_, a)) && a == 0)))
            }),
    {
        match matched {
            Some((property, bytes_after)) => {
                let response = Self::create_get_property_response(
                    sequence,
                    property.type_atom,
                    property.format,
                    bytes_after,
                    property.data,
                )?;
                Ok((response, params.delete && bytes_after == 0))
            },
            None => match existing {
                Some(property) => {
                    let total_bytes = property.data.len() as u32;
                    let response = Self::create_get_property_response(
                        sequence,
                        property.type_atom,
                        property.format,
                        total_bytes,
                        Vec::new(),
                    )?;
                    Ok((response, false))
                },
                None => {
                    let response = Self::create_get_property_response(
                        sequence,
                        0,
                        0,
                        0,
                        Vec::new(),
                    )?;
                    Ok((response, false))
                },
            },
        }
    }

    /// The opcodes this handler registers for.
    pub fn supported_opcodes(&self) -> (v: Vec<Opcode>)
        ensures
            v@ == seq![
                Opcode::Core(GET_PROPERTY),
                Opcode::Core(CHANGE_PROPERTY),
                Opcode::Core(DELETE_PROPERTY),
            ],
    {
        let v = vec![
            Opcode::Core(GET_PROPERTY),
            Opcode::Core(CHANGE_PROPERTY),
            Opcode::Core(DELETE_PROPERTY),
        ];
        assert(v@ =~= seq![
            Opcode::Core(GET_PROPERTY),
            Opcode::Core(CHANGE_PROPERTY),
            Opcode::Core(DELETE_PROPERTY),
        ]);
        v
    }
}

} // verus!

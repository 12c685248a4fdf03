//! Wire protocol serialization and deserialization
//!
//! This module handles the low-level binary format of the X11 protocol,
//! providing safe serialization and deserialization of messages.

use vstd::prelude::*;
use bytes::{Bytes, BytesMut};
use vstd::string::StringSliceAdditionalSpecFns;
use crate::protocol::buffers::{
    buffer_limit, bytes_advance, bytes_contents, bytes_get_u16_le, bytes_mut_contents, bytes_remaining,
    bytes_split_to, bytes_to_vec, put_slice, put_u16_le, put_u8,
};
use crate::protocol::endianness::{decode_u16, lemma_u16_round_trip, pad_to, u16_at, u16_bytes, zeros};
use crate::protocol::serialization::errors::put_zeros;
use crate::protocol::error::{ProtocolError, ServerError, ServerResult};
use crate::protocol::types::{ByteOrder, Opcode};
use crate::protocol::request::copy_range;
use crate::protocol::utf8::{string_from_utf8, utf8_error_message};

pub mod utils;

verus! {

/// Trait for types that can be serialized to the X11 wire format
pub trait Serialize {
    /// Serialize this type to bytes
    fn serialize(&self, buf: &mut BytesMut) -> ServerResult<()>;

    /// Get the serialized length in bytes
    fn serialized_length(&self) -> usize;
}

/// Trait for types that can be deserialized from the X11 wire format
pub trait Deserialize: Sized {
    /// Deserialize from bytes
    fn deserialize(buf: &mut Bytes) -> ServerResult<Self>;
}

/// An X11 string on the wire: its byte length (least significant byte
/// first), its bytes, zeros up to a multiple of 4.
pub open spec fn x11_string_bytes(s: Seq<u8>) -> Seq<u8> {
    u16_bytes(s.len() as u16, ByteOrder::LittleEndian) + s + zeros(pad_to(s.len(), 4))
}

/// Extension to BytesMut for X11-specific operations
pub trait X11BufMutExt {
    /// How many more bytes the buffer can take.
    spec fn room(&self) -> int;

    /// Put an X11 string (length-prefixed)
    fn put_x11_string(&mut self, s: &str)
        requires
            old(self).room() >= s.spec_bytes().len() + 5,
    ;

    /// Put padding bytes to align to 4-byte boundary
    fn put_padding(&mut self, len: usize)
        requires
            old(self).room() >= 3,
    ;
}

impl X11BufMutExt for BytesMut {
    open spec fn room(&self) -> int {
        buffer_limit() - bytes_mut_contents(*self).len()
    }

    fn put_x11_string(&mut self, s: &str)
        ensures
            bytes_mut_contents(*final(self)) == bytes_mut_contents(*old(self)) + x11_string_bytes(
                s.spec_bytes(),
            ),
    {
        let ghost start = bytes_mut_contents(*self);
        let bytes = s.as_bytes();
        put_u16_le(self, bytes.len() as u16);
        put_slice(self, bytes);
        // Add padding to 4-byte boundary
        let padding = (4 - (bytes.len() % 4)) % 4;
        put_zeros(self, padding);
        assert(bytes_mut_contents(*self) =~= start + x11_string_bytes(s.spec_bytes()));
    }

    fn put_padding(&mut self, len: usize)
        ensures
            bytes_mut_contents(*final(self)) == bytes_mut_contents(*old(self)) + zeros(
                pad_to(len as nat, 4),
            ),
    {
        let padding = (4 - (len % 4)) % 4;
        put_zeros(self, padding);
    }
}

/// What reading an X11 string off the front of `b` gives: the text and what
/// is left after it and its padding, or `None` where the bytes run out or are
/// not UTF-8.
pub open spec fn x11_string_read(b: Seq<u8>) -> Option<(Seq<char>, Seq<u8>)> {
    if b.len() < 2 {
        None
    } else {
        let len = u16_at(b, 0, ByteOrder::LittleEndian) as int;
        let rest = b.subrange(2, b.len() as int);
        if rest.len() < len {
            None
        } else {
            let text = rest.subrange(0, len);
            let after = rest.subrange(len, rest.len() as int);
            let padding = pad_to(len as nat, 4) as int;
            if !vstd::utf8::valid_utf8(text) || after.len() < padding {
                None
            } else {
                Some((vstd::utf8::decode_utf8(text), after.subrange(padding, after.len() as int)))
            }
        }
    }
}

/// Reading an X11 string back from what writing it produced gives the same
/// text, and leaves exactly the bytes that followed it.
pub proof fn lemma_x11_string_round_trip(text: Seq<char>, rest: Seq<u8>)
    requires
        vstd::utf8::encode_utf8(text).len() <= 0xFFFF,
    ensures
        x11_string_read(x11_string_bytes(vstd::utf8::encode_utf8(text)) + rest) == Some(
            (text, rest),
        ),
{
    let e = vstd::utf8::encode_utf8(text);
    let b = x11_string_bytes(e) + rest;
    let len = e.len() as u16;
    lemma_u16_round_trip(len, ByteOrder::LittleEndian);
    vstd::utf8::encode_utf8_valid_utf8(text);
    vstd::utf8::encode_utf8_decode_utf8(text);
    let body = b.subrange(2, b.len() as int);
    assert(body.subrange(0, e.len() as int) =~= e);
    let after = body.subrange(e.len() as int, body.len() as int);
    let padding = pad_to(e.len(), 4) as int;
    assert(after =~= zeros(pad_to(e.len(), 4)) + rest);
    assert(after.subrange(padding, after.len() as int) =~= rest);
}

/// Extension to Bytes for X11-specific operations
pub trait X11BufExt {
    /// Get an X11 string (length-prefixed)
    fn get_x11_string(&mut self) -> ServerResult<String>;

    /// Skip padding bytes to align to 4-byte boundary
    fn skip_padding(&mut self, data_len: usize) -> ServerResult<()>;
}

impl X11BufExt for Bytes {
    fn get_x11_string(&mut self) -> (r: ServerResult<String>)
        ensures
            r is Ok <==> x11_string_read(bytes_contents(*old(self))) is Some,
            r matches Ok(s) ==> x11_string_read(bytes_contents(*old(self))) == Some(
                (s@, bytes_contents(*final(self))),
            ),
            r matches Err(e) ==> e matches ServerError::ProtocolError(ProtocolError::InvalidMessage(_)),
    {
        if bytes_remaining(self) < 2 {
            return Err(ServerError::ProtocolError(ProtocolError::InvalidMessage("Not enough data for string length".to_owned())));
        }
        let len = bytes_get_u16_le(self) as usize;
        if bytes_remaining(self) < len {
            return Err(ServerError::ProtocolError(ProtocolError::InvalidMessage("Not enough data for string content".to_owned())));
        }
        let string_bytes = bytes_split_to(self, len);
        let raw = bytes_to_vec(&string_bytes);
        let s = match string_from_utf8(raw.as_slice()) {
            Some(s) => s,
            None => return Err(ServerError::ProtocolError(ProtocolError::InvalidMessage(utf8_error_message(raw.as_slice())))),
        };
        // Skip padding
        let padding = (4 - (len % 4)) % 4;
        if bytes_remaining(self) < padding {
            return Err(ServerError::ProtocolError(ProtocolError::InvalidMessage("Not enough data for string padding".to_owned())));
        }
        bytes_advance(self, padding);
        Ok(s)
    }

    fn skip_padding(&mut self, data_len: usize) -> (r: ServerResult<()>)
        ensures
            r is Ok <==> bytes_contents(*old(self)).len() >= pad_to(data_len as nat, 4),
            r is Ok ==> bytes_contents(*final(self)) == bytes_contents(*old(self)).subrange(
                pad_to(data_len as nat, 4) as int,
                bytes_contents(*old(self)).len() as int,
            ),
            r is Err ==> bytes_contents(*final(self)) == bytes_contents(*old(self)),
            r matches Err(e) ==> e matches ServerError::ProtocolError(ProtocolError::InvalidMessage(_)),
    {
        let padding = (4 - (data_len % 4)) % 4;
        if bytes_remaining(self) < padding {
            return Err(ServerError::ProtocolError(ProtocolError::InvalidMessage("Not enough data for padding".to_owned())));
        }
        bytes_advance(self, padding);
        Ok(())
    }
}

/// A request read off the wire: its opcode, the sequence number it was
/// given, and all of its bytes, header included.
#[derive(Debug, Clone)]
pub struct WireRequest {
    pub opcode: Opcode,
    pub sequence_number: u16,
    pub data: Vec<u8>,
}

impl WireRequest {
    /// A request whose data includes its 4-byte header.
    pub fn new_with_header(opcode: Opcode, sequence_number: u16, data: Vec<u8>) -> (r: Self)
        ensures
            r.opcode == opcode,
            r.sequence_number == sequence_number,
            r.data@ == data@,
    {
        Self { opcode, sequence_number, data }
    }
}

/// The opcode a request header names: a core opcode up to 127, else an
/// extension's major opcode with the minor opcode in the second byte.
pub open spec fn header_opcode(major: u8, minor: u8) -> Opcode {
    if major <= 127 {
        Opcode::Core(major)
    } else {
        Opcode::Extension(major, minor)
    }
}

/// The sequence number after `c`: one more, wrapping from 65535 to 0.
pub open spec fn next_sequence(c: u16) -> u16 {
    if c == 0xffff {
        0
    } else {
        (c + 1) as u16
    }
}

/// What a request header tells before its body is read: the opcode and how
/// many bytes follow the header. A length of zero is an error.
pub fn parse_request_header(header: [u8; 4]) -> (r: ServerResult<(Opcode, usize)>)
    ensures
        r is Ok <==> u16_at(header@, 2, ByteOrder::LittleEndian) != 0,
        r matches Err(e) ==> e matches ServerError::ProtocolError(ProtocolError::InvalidMessage(_)),
        r matches Ok((opcode, remaining)) ==> opcode == header_opcode(header@[0], header@[1])
            && remaining == 4 * u16_at(header@, 2, ByteOrder::LittleEndian) - 4,
{
    let major_opcode = header[0];
    let minor_opcode_or_data = header[1];
    let length = decode_u16(header[2], header[3], ByteOrder::LittleEndian);
    if length == 0 {
        return Err(
            ServerError::ProtocolError(
                ProtocolError::InvalidMessage("Request length cannot be zero".to_owned()),
            ),
        );
    }
    let opcode = if major_opcode <= 127 {
        Opcode::from_u8(major_opcode)
    } else {
        Opcode::from_extension(major_opcode, minor_opcode_or_data)
    };
    let total_request_bytes = length as usize * 4;
    let remaining_bytes = total_request_bytes - 4;
    Ok((opcode, remaining_bytes))
}

/// Parse an X11 request from a buffer (for testing or buffered reading)
pub fn parse_request_from_buffer(buf: &[u8], sequence_counter: &mut u16) -> (r: ServerResult<
    Option<WireRequest>,
>)
    ensures
        buf@.len() >= 4 && u16_at(buf@, 2, ByteOrder::LittleEndian) == 0 <==> r is Err,
        r matches Err(e) ==> e matches ServerError::ProtocolError(ProtocolError::InvalidMessage(_)),
        buf@.len() < 4 ==> r matches Ok(None),
        r matches Ok(Some(_)) <==> buf@.len() >= 4 && u16_at(buf@, 2, ByteOrder::LittleEndian)
            != 0 && buf@.len() >= 4 * u16_at(buf@, 2, ByteOrder::LittleEndian),
        r matches Ok(Some(req)) ==> {
            let total = 4 * u16_at(buf@, 2, ByteOrder::LittleEndian);
            &&& buf@.len() >= total
            &&& req.opcode == header_opcode(buf@[0], buf@[1])
            &&& req.data@ == buf@.subrange(0, total as int)
            &&& req.sequence_number == next_sequence(*old(sequence_counter))
        },
        r matches Ok(Some(_)) ==> *final(sequence_counter) == next_sequence(*old(sequence_counter)),
        !(r matches Ok(Some(_))) ==> *final(sequence_counter) == *old(sequence_counter),
{
    if buf.len() < 4 {
        return Ok(None);  // Not enough data for header
    }
    let major_opcode = buf[0];
    let minor_opcode_or_data = buf[1];
    let length = decode_u16(buf[2], buf[3], ByteOrder::LittleEndian);
    if length == 0 {
        return Err(
            ServerError::ProtocolError(
                ProtocolError::InvalidMessage("Request length cannot be zero".to_owned()),
            ),
        );
    }
    let total_length = length as usize * 4;
    if buf.len() < total_length {
        return Ok(None);  // Not enough data for complete request
    }
    let opcode = if major_opcode <= 127 {
        Opcode::from_u8(major_opcode)
    } else {
        Opcode::from_extension(major_opcode, minor_opcode_or_data)
    };
    let request_data = copy_range(buf, 0, total_length);
    *sequence_counter = if *sequence_counter == 0xffff {
        0
    } else {
        *sequence_counter + 1
    };
    Ok(Some(WireRequest::new_with_header(opcode, *sequence_counter, request_data)))
}

/// A reply as the connection writes it: its type byte and the bytes after it.
#[derive(Debug, Clone)]
pub struct WireResponse {
    pub response_type: u8,
    pub data: Vec<u8>,
}

/// The bytes written for a response: the type byte, then for data of 3 or
/// more bytes its first byte, the sequence number (least significant byte
/// first) and the data from its fourth byte on; shorter data is written as
/// it is and padded with zeros to 32 bytes.
pub open spec fn response_wire_bytes(response_type: u8, data: Seq<u8>, sequence: u16) -> Seq<u8> {
    if data.len() >= 3 {
        seq![response_type, data[0]] + u16_bytes(sequence, ByteOrder::LittleEndian) + data.subrange(
            3,
            data.len() as int,
        )
    } else {
        let body = seq![response_type] + data;
        body + zeros((32 - body.len()) as nat)
    }
}

/// The bytes `write_response` sends for a response with the given sequence number.
pub fn encode_response(response: &WireResponse, sequence_number: u16) -> (r: Vec<u8>)
    requires
        response.data@.len() + 32 <= crate::protocol::buffers::buffer_limit(),
    ensures
        r@ == response_wire_bytes(response.response_type, response.data@, sequence_number),
{
    let mut buf = crate::protocol::buffers::bytes_mut_new();
    put_u8(&mut buf, response.response_type);
    let data = response.data.as_slice();
    if data.len() >= 3 {
        put_slice(&mut buf, &data[0..1]);
        put_u16_le(&mut buf, sequence_number);
        put_slice(&mut buf, &data[3..data.len()]);
    } else {
        crate::protocol::buffers::extend_from_slice(&mut buf, data);
        let len = data.len() + 1;
        put_zeros(&mut buf, 32 - len);
    }
    let bytes = crate::protocol::buffers::bytes_mut_to_vec(&buf);
    assert(bytes@ =~= response_wire_bytes(response.response_type, response.data@, sequence_number));
    bytes
}

/// The bytes the legacy writer sends for a response: its type byte, then its data
/// as it is, with no sequence number put in.
pub fn legacy_response_bytes(response: &WireResponse) -> (r: Vec<u8>)
    ensures
        r@ == seq![response.response_type] + response.data@,
{
    let mut bytes: Vec<u8> = Vec::new();
    bytes.push(response.response_type);
    bytes.extend_from_slice(response.data.as_slice());
    assert(bytes@ =~= seq![response.response_type] + response.data@);
    bytes
}

} // verus!

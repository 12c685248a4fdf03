//! Wire protocol serialization and deserialization
//!
//! This module handles the low-level binary format of the X11 protocol,
//! providing safe serialization and deserialization of messages.

use vstd::prelude::*;
use bytes::{Bytes, BytesMut};
use vstd::string::StringSliceAdditionalSpecFns;
use crate::protocol::buffers::{
    buffer_limit, bytes_advance, bytes_contents, bytes_get_u16, bytes_mut_contents, bytes_remaining,
    bytes_split_to, bytes_to_vec, put_slice, put_u16, put_u8,
};
use crate::protocol::endianness::{lemma_u16_round_trip, pad_to, u16_at, u16_bytes, zeros};
use crate::protocol::handshake::decimal;
use crate::protocol::serialization::errors::put_zeros;
use crate::protocol::types::{ByteOrder, Result, X11Error};
use crate::protocol::utf8::{string_from_utf8, utf8_error_message};

pub mod utils;

verus! {

/// Trait for types that can be serialized to the X11 wire format
pub trait Serialize {
    /// Serialize this type to bytes
    fn serialize(&self, buf: &mut BytesMut) -> Result<()>;

    /// Get the serialized length in bytes
    fn serialized_length(&self) -> usize;
}

/// Trait for types that can be deserialized from the X11 wire format
pub trait Deserialize: Sized {
    /// Deserialize from bytes
    fn deserialize(buf: &mut Bytes) -> Result<Self>;
}

/// An X11 string on the wire: its byte length (most significant byte
/// first), its bytes, zeros up to a multiple of 4.
pub open spec fn x11_string_bytes(s: Seq<u8>) -> Seq<u8> {
    u16_bytes(s.len() as u16, ByteOrder::BigEndian) + s + zeros(pad_to(s.len(), 4))
}

/// Extension to BytesMut for X11-specific operations
pub trait X11BufMutExt {
    /// How many more bytes the buffer can take.
    spec fn room(&self) -> int;

    /// Put an X11 string (length-prefixed)
    fn put_x11_string(&mut self, s: &str)
        requires
            old(self).room() >= s.spec_bytes().len() + 5,
    ;

    /// Put padding bytes to align to 4-byte boundary
    fn put_padding(&mut self, len: usize)
        requires
            old(self).room() >= 3,
    ;
}

impl X11BufMutExt for BytesMut {
    open spec fn room(&self) -> int {
        buffer_limit() - bytes_mut_contents(*self).len()
    }

    fn put_x11_string(&mut self, s: &str)
        ensures
            bytes_mut_contents(*final(self)) == bytes_mut_contents(*old(self)) + x11_string_bytes(
                s.spec_bytes(),
            ),
    {
        let ghost start = bytes_mut_contents(*self);
        let bytes = s.as_bytes();
        put_u16(self, bytes.len() as u16);
        put_slice(self, bytes);
        // Add padding to 4-byte boundary
        let padding = (4 - (bytes.len() % 4)) % 4;
        put_zeros(self, padding);
        assert(bytes_mut_contents(*self) =~= start + x11_string_bytes(s.spec_bytes()));
    }

    fn put_padding(&mut self, len: usize)
        ensures
            bytes_mut_contents(*final(self)) == bytes_mut_contents(*old(self)) + zeros(
                pad_to(len as nat, 4),
            ),
    {
        let padding = (4 - (len % 4)) % 4;
        put_zeros(self, padding);
    }
}

/// What reading an X11 string off the front of `b` gives: the text and what
/// is left after it and its padding, or `None` where the bytes run out or are
/// not UTF-8.
pub open spec fn x11_string_read(b: Seq<u8>) -> Option<(Seq<char>, Seq<u8>)> {
    if b.len() < 2 {
        None
    } else {
        let len = u16_at(b, 0, ByteOrder::BigEndian) as int;
        let rest = b.subrange(2, b.len() as int);
        if rest.len() < len {
            None
        } else {
            let text = rest.subrange(0, len);
            let after = rest.subrange(len, rest.len() as int);
            let padding = pad_to(len as nat, 4) as int;
            if !vstd::utf8::valid_utf8(text) || after.len() < padding {
                None
            } else {
                Some((vstd::utf8::decode_utf8(text), after.subrange(padding, after.len() as int)))
            }
        }
    }
}

/// Reading an X11 string back from what writing it produced gives the same
/// text, and leaves exactly the bytes that followed it.
pub proof fn lemma_x11_string_round_trip(text: Seq<char>, rest: Seq<u8>)
    requires
        vstd::utf8::encode_utf8(text).len() <= 0xFFFF,
    ensures
        x11_string_read(x11_string_bytes(vstd::utf8::encode_utf8(text)) + rest) == Some(
            (text, rest),
        ),
{
    let e = vstd::utf8::encode_utf8(text);
    let b = x11_string_bytes(e) + rest;
    let len = e.len() as u16;
    lemma_u16_round_trip(len, ByteOrder::BigEndian);
    vstd::utf8::encode_utf8_valid_utf8(text);
    vstd::utf8::encode_utf8_decode_utf8(text);
    let body = b.subrange(2, b.len() as int);
    assert(body.subrange(0, e.len() as int) =~= e);
    let after = body.subrange(e.len() as int, body.len() as int);
    let padding = pad_to(e.len(), 4) as int;
    assert(after =~= zeros(pad_to(e.len(), 4)) + rest);
    assert(after.subrange(padding, after.len() as int) =~= rest);
}

/// Extension to Bytes for X11-specific operations
pub trait X11BufExt {
    /// Get an X11 string (length-prefixed)
    fn get_x11_string(&mut self) -> Result<String>;

    /// Skip padding bytes to align to 4-byte boundary
    fn skip_padding(&mut self, data_len: usize) -> Result<()>;
}

impl X11BufExt for Bytes {
    fn get_x11_string(&mut self) -> (r: Result<String>)
        ensures
            r is Ok <==> x11_string_read(bytes_contents(*old(self))) is Some,
            r matches Ok(s) ==> x11_string_read(bytes_contents(*old(self))) == Some(
                (s@, bytes_contents(*final(self))),
            ),
            r matches Err(e) ==> e is Protocol,
    {
        if bytes_remaining(self) < 2 {
            return Err(X11Error::Protocol("Not enough data for string length".to_owned()));
        }
        let len = bytes_get_u16(self) as usize;
        if bytes_remaining(self) < len {
            return Err(X11Error::Protocol("Not enough data for string content".to_owned()));
        }
        let string_bytes = bytes_split_to(self, len);
        let raw = bytes_to_vec(&string_bytes);
        let s = match string_from_utf8(raw.as_slice()) {
            Some(s) => s,
            None => return Err(X11Error::Protocol(utf8_error_message(raw.as_slice()))),
        };
        // Skip padding
        let padding = (4 - (len % 4)) % 4;
        if bytes_remaining(self) < padding {
            return Err(X11Error::Protocol("Not enough data for string padding".to_owned()));
        }
        bytes_advance(self, padding);
        Ok(s)
    }

    fn skip_padding(&mut self, data_len: usize) -> (r: Result<()>)
        ensures
            r is Ok <==> bytes_contents(*old(self)).len() >= pad_to(data_len as nat, 4),
            r is Ok ==> bytes_contents(*final(self)) == bytes_contents(*old(self)).subrange(
                pad_to(data_len as nat, 4) as int,
                bytes_contents(*old(self)).len() as int,
            ),
            r is Err ==> bytes_contents(*final(self)) == bytes_contents(*old(self)),
            r matches Err(e) ==> e is Protocol,
    {
        let padding = (4 - (data_len % 4)) % 4;
        if bytes_remaining(self) < padding {
            return Err(X11Error::Protocol("Not enough data for padding".to_owned()));
        }
        bytes_advance(self, padding);
        Ok(())
    }
}

} // verus!

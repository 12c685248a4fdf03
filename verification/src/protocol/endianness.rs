// SPDX-License-Identifier: Apache-2.0

//! Utilities for reading and writing X11 protocol data with correct endianness.
//!
//! Provides `EndianWriter` and `EndianReader` for encoding and decoding integers and strings
//! according to the byte order required by the X11 protocol.

use vstd::prelude::*;
use super::types::ByteOrder;
use super::utf8::string_from_utf8;
use vstd::string::StringSliceAdditionalSpecFns;

verus! {

/// The two bytes of `v` in the given byte order.
pub open spec fn u16_bytes(v: u16, order: ByteOrder) -> Seq<u8> {
    match order {
        ByteOrder::LittleEndian => seq![(v % 256) as u8, (v / 256) as u8],
        ByteOrder::BigEndian => seq![(v / 256) as u8, (v % 256) as u8],
    }
}

/// The four bytes of `v` in the given byte order.
pub open spec fn u32_bytes(v: u32, order: ByteOrder) -> Seq<u8> {
    let b0 = (v % 256) as u8;
    let b1 = ((v / 256) % 256) as u8;
    let b2 = ((v / 65536) % 256) as u8;
    let b3 = (v / 16777216) as u8;
    match order {
        ByteOrder::LittleEndian => seq![b0, b1, b2, b3],
        ByteOrder::BigEndian => seq![b3, b2, b1, b0],
    }
}

/// The 16-bit value stored in `s[i..i+2]` in the given byte order.
pub open spec fn u16_at(s: Seq<u8>, i: int, order: ByteOrder) -> u16 {
    match order {
        ByteOrder::LittleEndian => (s[i] + 256 * s[i + 1]) as u16,
        ByteOrder::BigEndian => (256 * s[i] + s[i + 1]) as u16,
    }
}

/// The 32-bit value stored in `s[i..i+4]` in the given byte order.
pub open spec fn u32_at(s: Seq<u8>, i: int, order: ByteOrder) -> u32 {
    match order {
        ByteOrder::LittleEndian =>
            (s[i] + 256 * s[i + 1] + 65536 * s[i + 2] + 16777216 * s[i + 3]) as u32,
        ByteOrder::BigEndian =>
            (16777216 * s[i] + 65536 * s[i + 1] + 256 * s[i + 2] + s[i + 3]) as u32,
    }
}

/// Little-endian shorthands, the wire order this server uses for most replies.
pub open spec fn le16(v: u16) -> Seq<u8> {
    u16_bytes(v, ByteOrder::LittleEndian)
}

pub open spec fn le32(v: u32) -> Seq<u8> {
    u32_bytes(v, ByteOrder::LittleEndian)
}

pub open spec fn le16_at(s: Seq<u8>, i: int) -> u16 {
    u16_at(s, i, ByteOrder::LittleEndian)
}

pub open spec fn le32_at(s: Seq<u8>, i: int) -> u32 {
    u32_at(s, i, ByteOrder::LittleEndian)
}

/// `n` zero bytes.
pub open spec fn zeros(n: nat) -> Seq<u8> {
    Seq::new(n, |i: int| 0u8)
}

/// Bytes needed after `len` bytes to reach a multiple of `align`.
pub open spec fn pad_to(len: nat, align: nat) -> nat {
    ((align - (len % align) as int) % align as int) as nat
}

/// Index of the first NUL byte of `s`, or its length when there is none.
pub open spec fn nul_index(s: Seq<u8>) -> nat
    decreases s.len(),
{
    if s.len() == 0 {
        0
    } else if s[0] == 0 {
        0
    } else {
        1 + nul_index(s.drop_first())
    }
}

/// Encode a 16-bit value in the given byte order.
pub fn encode_u16(v: u16, order: ByteOrder) -> (b: [u8; 2])
    ensures
        b@ == u16_bytes(v, order),
{
    let lo = (v % 256) as u8;
    let hi = (v / 256) as u8;
    let b = match order {
        ByteOrder::LittleEndian => [lo, hi],
        ByteOrder::BigEndian => [hi, lo],
    };
    assert(b@ =~= u16_bytes(v, order));
    b
}

/// Encode a 32-bit value in the given byte order.
pub fn encode_u32(v: u32, order: ByteOrder) -> (b: [u8; 4])
    ensures
        b@ == u32_bytes(v, order),
{
    let b0 = (v % 256) as u8;
    let b1 = ((v / 256) % 256) as u8;
    let b2 = ((v / 65536) % 256) as u8;
    let b3 = (v / 16777216) as u8;
    let b = match order {
        ByteOrder::LittleEndian => [b0, b1, b2, b3],
        ByteOrder::BigEndian => [b3, b2, b1, b0],
    };
    assert(b@ =~= u32_bytes(v, order));
    b
}

/// Decode two bytes in the given byte order.
pub fn decode_u16(b0: u8, b1: u8, order: ByteOrder) -> (v: u16)
    ensures
        v == u16_at(seq![b0, b1], 0, order),
{
    match order {
        ByteOrder::LittleEndian => b0 as u16 + 256 * (b1 as u16),
        ByteOrder::BigEndian => 256 * (b0 as u16) + b1 as u16,
    }
}

/// Decode four bytes in the given byte order.
pub fn decode_u32(b0: u8, b1: u8, b2: u8, b3: u8, order: ByteOrder) -> (v: u32)
    ensures
        v == u32_at(seq![b0, b1, b2, b3], 0, order),
{
    match order {
        ByteOrder::LittleEndian => b0 as u32 + 256 * (b1 as u32) + 65536 * (b2 as u32) + 16777216
            * (b3 as u32),
        ByteOrder::BigEndian => 16777216 * (b0 as u32) + 65536 * (b1 as u32) + 256 * (b2 as u32)
            + b3 as u32,
    }
}

/// Decoding the encoding of a 16-bit value gives the value back, in either byte order.
pub proof fn lemma_u16_round_trip(v: u16, order: ByteOrder)
    ensures
        u16_at(u16_bytes(v, order), 0, order) == v,
{
}

/// A 16-bit value read where its encoding was written is that value.
pub proof fn lemma_u16_at_encoding(s: Seq<u8>, i: int, v: u16, order: ByteOrder)
    requires
        0 <= i,
        i + 2 <= s.len(),
        s.subrange(i, i + 2) == u16_bytes(v, order),
    ensures
        u16_at(s, i, order) == v,
{
    lemma_u16_round_trip(v, order);
    assert(s[i] == s.subrange(i, i + 2)[0] && s[i + 1] == s.subrange(i, i + 2)[1]);
}

/// A 32-bit value read where its encoding was written is that value.
pub proof fn lemma_u32_at_encoding(s: Seq<u8>, i: int, v: u32, order: ByteOrder)
    requires
        0 <= i,
        i + 4 <= s.len(),
        s.subrange(i, i + 4) == u32_bytes(v, order),
    ensures
        u32_at(s, i, order) == v,
{
    lemma_u32_round_trip(v, order);
    let w = s.subrange(i, i + 4);
    assert(s[i] == w[0] && s[i + 1] == w[1] && s[i + 2] == w[2] && s[i + 3] == w[3]);
}

/// Decoding the encoding of a 32-bit value gives the value back, in either byte order.
pub proof fn lemma_u32_round_trip(v: u32, order: ByteOrder)
    ensures
        u32_at(u32_bytes(v, order), 0, order) == v,
{
    let x = v as int;
    assert(x % 256 + 256 * ((x / 256) % 256) + 65536 * ((x / 65536) % 256) + 16777216 * (x
        / 16777216) == x && x / 16777216 < 256) by (nonlinear_arith)
        requires
            0 <= x < 0x1_0000_0000,
    ;
    let b = u32_bytes(v, order);
    match order {
        ByteOrder::LittleEndian => {
            assert(b[0] == x % 256 && b[1] == (x / 256) % 256 && b[2] == (x / 65536) % 256 && b[3]
                == x / 16777216);
        },
        ByteOrder::BigEndian => {
            assert(b[3] == x % 256 && b[2] == (x / 256) % 256 && b[1] == (x / 65536) % 256 && b[0]
                == x / 16777216);
        },
    }
}

/// Utility for handling connection-specific byte order operations.
/// This is mandatory by X11 specification for proper protocol compliance.
pub struct EndianWriter {
    buffer: Vec<u8>,
    byte_order: ByteOrder,
}

impl EndianWriter {
    /// The bytes written so far (including what the buffer held at creation).
    pub closed spec fn contents(&self) -> Seq<u8> {
        self.buffer@
    }

    /// The byte order this writer encodes with.
    pub closed spec fn order(&self) -> ByteOrder {
        self.byte_order
    }

    /// Create a new EndianWriter that appends to `buffer` with the specified byte order.
    pub fn new(buffer: Vec<u8>, byte_order: ByteOrder) -> (w: Self)
        ensures
            w.contents() == buffer@,
            w.order() == byte_order,
    {
        Self { buffer, byte_order }
    }

    /// The buffer, with everything written to it.
    pub fn into_buffer(self) -> (b: Vec<u8>)
        ensures
            b@ == self.contents(),
    {
        self.buffer
    }

    /// Borrow the buffer.
    pub fn buffer(&self) -> (b: &Vec<u8>)
        ensures
            b@ == self.contents(),
    {
        &self.buffer
    }

    /// Write a single byte (no endianness concerns)
    pub fn write_u8(&mut self, value: u8)
        ensures
            final(self).contents() == old(self).contents().push(value),
            final(self).order() == old(self).order(),
    {
        self.buffer.push(value);
    }

    /// Write a 16-bit value with proper byte order
    pub fn write_u16(&mut self, value: u16)
        ensures
            final(self).contents() == old(self).contents() + u16_bytes(value, old(self).order()),
            final(self).order() == old(self).order(),
    {
        let b = encode_u16(value, self.byte_order);
        self.buffer.extend_from_slice(&b);
    }

    /// Write a 32-bit value with proper byte order
    pub fn write_u32(&mut self, value: u32)
        ensures
            final(self).contents() == old(self).contents() + u32_bytes(value, old(self).order()),
            final(self).order() == old(self).order(),
    {
        let b = encode_u32(value, self.byte_order);
        self.buffer.extend_from_slice(&b);
    }

    /// Write raw bytes (no endianness conversion)
    pub fn write_bytes(&mut self, bytes: &[u8])
        ensures
            final(self).contents() == old(self).contents() + bytes@,
            final(self).order() == old(self).order(),
    {
        self.buffer.extend_from_slice(bytes);
    }

    /// Write `n` zero bytes.
    pub fn write_padding(&mut self, n: usize)
        ensures
            final(self).contents() == old(self).contents() + zeros(n as nat),
            final(self).order() == old(self).order(),
    {
        let ghost start = self.buffer@;
        let mut i: usize = 0;
        while i < n
            invariant
                i <= n,
                self.buffer@ == start + zeros(i as nat),
                self.byte_order == old(self).byte_order,
            decreases n - i,
        {
            self.buffer.push(0u8);
            i = i + 1;
            assert(self.buffer@ =~= start + zeros(i as nat));
        }
    }

    /// Write a string with 4-byte padding as required by X11 protocol
    pub fn write_string_with_padding(&mut self, s: &str)
        ensures
            final(self).contents() == old(self).contents() + s.spec_bytes() + zeros(
                pad_to(s.spec_bytes().len(), 4),
            ),
            final(self).order() == old(self).order(),
    {
        let bytes = s.as_bytes();
        self.buffer.extend_from_slice(bytes);
        let padding = (4 - (bytes.len() % 4)) % 4;
        self.write_padding(padding);
    }

    /// Write a string with custom alignment padding
    pub fn write_padded_string(&mut self, s: &str, align: usize)
        requires
            align > 0,
        ensures
            final(self).contents() == old(self).contents() + s.spec_bytes() + zeros(
                pad_to(s.spec_bytes().len(), align as nat),
            ),
            final(self).order() == old(self).order(),
    {
        let bytes = s.as_bytes();
        self.buffer.extend_from_slice(bytes);
        let padding = (align - (bytes.len() % align)) % align;
        self.write_padding(padding);
    }

    /// Get the current length of the buffer
    pub fn len(&self) -> (n: usize)
        ensures
            n == self.contents().len(),
    {
        self.buffer.len()
    }

    /// Check if the buffer is empty
    pub fn is_empty(&self) -> (b: bool)
        ensures
            b == (self.contents().len() == 0),
    {
        self.buffer.len() == 0
    }

    /// Get the byte order being used
    pub fn byte_order(&self) -> (o: ByteOrder)
        ensures
            o == self.order(),
    {
        self.byte_order
    }
}

/// Utility for reading X11 protocol data with proper byte order handling
/// This complements EndianWriter for parsing incoming requests
pub struct EndianReader<'a> {
    data: &'a [u8],
    offset: usize,
    byte_order: ByteOrder,
}

impl<'a> EndianReader<'a> {
    /// The whole input.
    pub closed spec fn input(&self) -> Seq<u8> {
        self.data@
    }

    /// How many bytes have been consumed.
    pub closed spec fn position(&self) -> nat {
        self.offset as nat
    }

    /// The byte order this reader decodes with.
    pub closed spec fn order(&self) -> ByteOrder {
        self.byte_order
    }

    #[verifier::type_invariant]
    spec fn inv(&self) -> bool {
        self.offset <= self.data@.len()
    }

    /// Create a new EndianReader with the specified byte order
    pub fn new(data: &'a [u8], byte_order: ByteOrder) -> (r: Self)
        ensures
            r.input() == data@,
            r.position() == 0,
            r.order() == byte_order,
    {
        Self { data, offset: 0, byte_order }
    }

    /// Read a single byte
    pub fn read_u8(&mut self) -> (r: Result<u8, &'static str>)
        ensures
            final(self).input() == old(self).input(),
            final(self).order() == old(self).order(),
            old(self).position() < old(self).input().len() <==> r is Ok,
            r matches Ok(v) ==> v == old(self).input()[old(self).position() as int]
                && final(self).position() == old(self).position() + 1,
            r is Err ==> final(self).position() == old(self).position(),
    {
        proof {
            use_type_invariant(&*self);
        }
        if self.offset >= self.data.len() {
            return Err("Not enough data to read u8");
        }
        let value = self.data[self.offset];
        self.offset += 1;
        Ok(value)
    }

    /// Read a 16-bit value with proper byte order
    pub fn read_u16(&mut self) -> (r: Result<u16, &'static str>)
        ensures
            final(self).input() == old(self).input(),
            final(self).order() == old(self).order(),
            old(self).position() + 2 <= old(self).input().len() <==> r is Ok,
            r matches Ok(v) ==> v == u16_at(
                old(self).input(),
                old(self).position() as int,
                old(self).order(),
            ) && final(self).position() == old(self).position() + 2,
            r is Err ==> final(self).position() == old(self).position(),
    {
        proof {
            use_type_invariant(&*self);
        }
        if self.data.len() - self.offset < 2 {
            return Err("Not enough data to read u16");
        }
        let v = decode_u16(self.data[self.offset], self.data[self.offset + 1], self.byte_order);
        self.offset += 2;
        Ok(v)
    }

    /// Read a 32-bit value with proper byte order
    pub fn read_u32(&mut self) -> (r: Result<u32, &'static str>)
        ensures
            final(self).input() == old(self).input(),
            final(self).order() == old(self).order(),
            old(self).position() + 4 <= old(self).input().len() <==> r is Ok,
            r matches Ok(v) ==> v == u32_at(
                old(self).input(),
                old(self).position() as int,
                old(self).order(),
            ) && final(self).position() == old(self).position() + 4,
            r is Err ==> final(self).position() == old(self).position(),
    {
        proof {
            use_type_invariant(&*self);
        }
        if self.data.len() - self.offset < 4 {
            return Err("Not enough data to read u32");
        }
        let v = decode_u32(
            self.data[self.offset],
            self.data[self.offset + 1],
            self.data[self.offset + 2],
            self.data[self.offset + 3],
            self.byte_order,
        );
        self.offset += 4;
        Ok(v)
    }

    /// Read a signed 16-bit value with proper byte order
    pub fn read_i16(&mut self) -> (r: Result<i16, &'static str>)
        ensures
            final(self).input() == old(self).input(),
            final(self).order() == old(self).order(),
            old(self).position() + 2 <= old(self).input().len() <==> r is Ok,
            r matches Ok(v) ==> v == u16_at(
                old(self).input(),
                old(self).position() as int,
                old(self).order(),
            ) as i16 && final(self).position() == old(self).position() + 2,
            r is Err ==> final(self).position() == old(self).position(),
    {
        let v = self.read_u16()?;
        Ok(v as i16)
    }

    /// Read raw bytes
    pub fn read_bytes(&mut self, count: usize) -> (r: Result<&'a [u8], &'static str>)
        ensures
            final(self).input() == old(self).input(),
            final(self).order() == old(self).order(),
            old(self).position() + count <= old(self).input().len() <==> r is Ok,
            r matches Ok(b) ==> b@ == old(self).input().subrange(
                old(self).position() as int,
                old(self).position() + count,
            ) && final(self).position() == old(self).position() + count,
            r is Err ==> final(self).position() == old(self).position(),
    {
        proof {
            use_type_invariant(&*self);
        }
        if count > self.data.len() - self.offset {
            return Err("Not enough data to read bytes");
        }
        let bytes = &self.data[self.offset..self.offset + count];
        self.offset += count;
        Ok(bytes)
    }

    /// Read a string with specified length, accounting for padding: the string ends
    /// at the first NUL byte among the `length` bytes read, or after all of them.
    pub fn read_string(&mut self, length: usize) -> (r: Result<String, &'static str>)
        ensures
            final(self).input() == old(self).input(),
            final(self).order() == old(self).order(),
            ({
                let field = old(self).input().subrange(
                    old(self).position() as int,
                    old(self).position() + length,
                );
                let text = field.take(nul_index(field) as int);
                &&& r is Ok <==> old(self).position() + length <= old(self).input().len()
                    && vstd::utf8::valid_utf8(text)
                &&& r matches Ok(s) ==> s@ == vstd::utf8::decode_utf8(text)
                &&& old(self).position() + length <= old(self).input().len()
                    ==> final(self).position() == old(self).position() + length
                &&& old(self).position() + length > old(self).input().len()
                    ==> final(self).position() == old(self).position()
            }),
    {
        let bytes = self.read_bytes(length)?;
        let mut end: usize = 0;
        assert(bytes@.skip(0) =~= bytes@);
        while end < bytes.len() && bytes[end] != 0
            invariant
                end <= bytes@.len(),
                nul_index(bytes@) == end + nul_index(bytes@.skip(end as int)),
            decreases bytes@.len() - end,
        {
            proof {
                assert(bytes@.skip(end as int).drop_first() =~= bytes@.skip(end + 1));
            }
            end = end + 1;
        }
        proof {
            if end < bytes@.len() {
                assert(bytes@.skip(end as int)[0] == 0);
            } else {
                assert(bytes@.skip(end as int).len() == 0);
            }
        }
        match string_from_utf8(&bytes[0..end]) {
            Some(s) => Ok(s),
            None => Err("Invalid UTF-8 in string"),
        }
    }

    /// Skip padding bytes to align to specified boundary
    pub fn skip_padding(&mut self, align: usize) -> (r: Result<(), &'static str>)
        requires
            align > 0,
        ensures
            final(self).input() == old(self).input(),
            final(self).order() == old(self).order(),
            old(self).position() + pad_to(old(self).position(), align as nat) <= old(
                self,
            ).input().len() <==> r is Ok,
            r is Ok ==> final(self).position() == old(self).position() + pad_to(
                old(self).position(),
                align as nat,
            ),
            r is Err ==> final(self).position() == old(self).position(),
    {
        proof {
            use_type_invariant(&*self);
        }
        let padding = (align - (self.offset % align)) % align;
        if padding > self.data.len() - self.offset {
            return Err("Not enough data for padding");
        }
        self.offset += padding;
        Ok(())
    }

    /// Get the current offset
    pub fn offset(&self) -> (n: usize)
        ensures
            n == self.position(),
    {
        self.offset
    }

    /// Get the remaining bytes count
    pub fn remaining(&self) -> (n: usize)
        ensures
            n == self.input().len() - self.position(),
    {
        proof {
            use_type_invariant(self);
        }
        self.data.len() - self.offset
    }

    /// Check if there are any bytes remaining
    pub fn has_remaining(&self) -> (b: bool)
        ensures
            b == (self.position() < self.input().len()),
    {
        self.offset < self.data.len()
    }

    /// Get the byte order being used
    pub fn byte_order(&self) -> (o: ByteOrder)
        ensures
            o == self.order(),
    {
        self.byte_order
    }

    /// Peek at the next byte without advancing the offset
    pub fn peek_u8(&self) -> (r: Result<u8, &'static str>)
        ensures
            self.position() < self.input().len() <==> r is Ok,
            r matches Ok(v) ==> v == self.input()[self.position() as int],
    {
        if self.offset >= self.data.len() {
            return Err("Not enough data to peek u8");
        }
        Ok(self.data[self.offset])
    }
}

} // verus!

//! The byte buffers of the `bytes` crate, as this library uses them: what a
//! buffer holds, and what each call made on one does to it.

use vstd::prelude::*;
use bytes::{Buf, BufMut, Bytes, BytesMut};
use crate::protocol::endianness::{u16_at, u16_bytes, u32_bytes};
use crate::protocol::types::ByteOrder;

verus! {

#[verifier::external_type_specification]
#[verifier::external_body]
pub struct ExBytesMut(bytes::BytesMut);

#[verifier::external_type_specification]
#[verifier::external_body]
pub struct ExBytes(bytes::Bytes);

/// The bytes a `BytesMut` holds, in order.
pub uninterp spec fn bytes_mut_contents(b: BytesMut) -> Seq<u8>;

/// The bytes a `Bytes` holds (those not yet read), in order.
pub uninterp spec fn bytes_contents(b: Bytes) -> Seq<u8>;

/// `Clone` for `Bytes`: another handle on the same bytes.
pub assume_specification[ <bytes::Bytes as Clone>::clone ](b: &bytes::Bytes) -> (r: bytes::Bytes)
    ensures
        bytes_contents(r) == bytes_contents(*b),
;

/// The most bytes a buffer can hold: an allocation is at most `isize::MAX` bytes.
pub open spec fn buffer_limit() -> int {
    isize::MAX as int
}

/// `BytesMut::new`: an empty buffer.
#[verifier::external_body]
pub(crate) fn bytes_mut_new() -> (b: BytesMut)
    ensures
        bytes_mut_contents(b) == Seq::<u8>::empty(),
{
    BytesMut::new()
}

/// `BufMut::put_u8` on a `BytesMut`: appends the byte. It reserves room
/// first, which panics past `isize::MAX` bytes.
#[verifier::external_body]
pub(crate) fn put_u8(buf: &mut BytesMut, n: u8)
    requires
        bytes_mut_contents(*old(buf)).len() + 1 <= buffer_limit(),
    ensures
        bytes_mut_contents(*final(buf)) == bytes_mut_contents(*old(buf)).push(n),
{
    buf.put_u8(n)
}

/// `BufMut::put_u16` on a `BytesMut`: appends the two bytes of `n`, most
/// significant first (`u16::to_be_bytes`).
#[verifier::external_body]
pub(crate) fn put_u16(buf: &mut BytesMut, n: u16)
    requires
        bytes_mut_contents(*old(buf)).len() + 2 <= buffer_limit(),
    ensures
        bytes_mut_contents(*final(buf)) == bytes_mut_contents(*old(buf)) + u16_bytes(
            n,
            ByteOrder::BigEndian,
        ),
{
    buf.put_u16(n)
}

/// `BufMut::put_u16_le` on a `BytesMut`: appends the two bytes of `n`, least
/// significant first (`u16::to_le_bytes`).
#[verifier::external_body]
pub(crate) fn put_u16_le(buf: &mut BytesMut, n: u16)
    requires
        bytes_mut_contents(*old(buf)).len() + 2 <= buffer_limit(),
    ensures
        bytes_mut_contents(*final(buf)) == bytes_mut_contents(*old(buf)) + u16_bytes(
            n,
            ByteOrder::LittleEndian,
        ),
{
    buf.put_u16_le(n)
}

/// `BufMut::put_i16` on a `BytesMut`: appends the two bytes of `n` in two's
/// complement, most significant first (`i16::to_be_bytes`).
#[verifier::external_body]
pub(crate) fn put_i16(buf: &mut BytesMut, n: i16)
    requires
        bytes_mut_contents(*old(buf)).len() + 2 <= buffer_limit(),
    ensures
        bytes_mut_contents(*final(buf)) == bytes_mut_contents(*old(buf)) + u16_bytes(
            n as u16,
            ByteOrder::BigEndian,
        ),
{
    buf.put_i16(n)
}

/// `BufMut::put_u32` on a `BytesMut`: appends the four bytes of `n`, most
/// significant first (`u32::to_be_bytes`).
#[verifier::external_body]
pub(crate) fn put_u32(buf: &mut BytesMut, n: u32)
    requires
        bytes_mut_contents(*old(buf)).len() + 4 <= buffer_limit(),
    ensures
        bytes_mut_contents(*final(buf)) == bytes_mut_contents(*old(buf)) + u32_bytes(
            n,
            ByteOrder::BigEndian,
        ),
{
    buf.put_u32(n)
}

/// `BufMut::put_u32_le` on a `BytesMut`: appends the four bytes of `n`, least
/// significant first (`u32::to_le_bytes`).
#[verifier::external_body]
pub(crate) fn put_u32_le(buf: &mut BytesMut, n: u32)
    requires
        bytes_mut_contents(*old(buf)).len() + 4 <= buffer_limit(),
    ensures
        bytes_mut_contents(*final(buf)) == bytes_mut_contents(*old(buf)) + u32_bytes(
            n,
            ByteOrder::LittleEndian,
        ),
{
    buf.put_u32_le(n)
}

/// `BufMut::put_slice` on a `BytesMut`: appends the bytes of `src`.
#[verifier::external_body]
pub(crate) fn put_slice(buf: &mut BytesMut, src: &[u8])
    requires
        bytes_mut_contents(*old(buf)).len() + src@.len() <= buffer_limit(),
    ensures
        bytes_mut_contents(*final(buf)) == bytes_mut_contents(*old(buf)) + src@,
{
    buf.put_slice(src)
}

/// `BytesMut::extend_from_slice`: appends the bytes of `extend`.
#[verifier::external_body]
pub(crate) fn extend_from_slice(buf: &mut BytesMut, extend: &[u8])
    requires
        bytes_mut_contents(*old(buf)).len() + extend@.len() <= buffer_limit(),
    ensures
        bytes_mut_contents(*final(buf)) == bytes_mut_contents(*old(buf)) + extend@,
{
    buf.extend_from_slice(extend)
}

/// `<[u8]>::to_vec` on the bytes of a `BytesMut`: a copy of them.
#[verifier::external_body]
pub(crate) fn bytes_mut_to_vec(buf: &BytesMut) -> (v: Vec<u8>)
    ensures
        v@ == bytes_mut_contents(*buf),
{
    buf.to_vec()
}

/// `Bytes::copy_from_slice`: a buffer holding a copy of `data`.
#[verifier::external_body]
pub(crate) fn bytes_copy_from_slice(data: &[u8]) -> (b: Bytes)
    ensures
        bytes_contents(b) == data@,
{
    Bytes::copy_from_slice(data)
}

/// `Buf::remaining` on a `Bytes`: how many bytes are left.
#[verifier::external_body]
pub(crate) fn bytes_remaining(b: &Bytes) -> (n: usize)
    ensures
        n == bytes_contents(*b).len(),
{
    b.remaining()
}

/// `Buf::get_u16` on a `Bytes`: reads two bytes, most significant first.
/// It panics when fewer than two remain.
#[verifier::external_body]
pub(crate) fn bytes_get_u16(b: &mut Bytes) -> (v: u16)
    requires
        bytes_contents(*old(b)).len() >= 2,
    ensures
        v == u16_at(bytes_contents(*old(b)), 0, ByteOrder::BigEndian),
        bytes_contents(*final(b)) == bytes_contents(*old(b)).subrange(
            2,
            bytes_contents(*old(b)).len() as int,
        ),
{
    b.get_u16()
}

/// `Buf::get_u16_le` on a `Bytes`: reads two bytes, least significant first.
/// It panics when fewer than two remain.
#[verifier::external_body]
pub(crate) fn bytes_get_u16_le(b: &mut Bytes) -> (v: u16)
    requires
        bytes_contents(*old(b)).len() >= 2,
    ensures
        v == u16_at(bytes_contents(*old(b)), 0, ByteOrder::LittleEndian),
        bytes_contents(*final(b)) == bytes_contents(*old(b)).subrange(
            2,
            bytes_contents(*old(b)).len() as int,
        ),
{
    b.get_u16_le()
}

/// `Bytes::split_to`: the first `at` bytes; `b` keeps the rest. It panics
/// when `at` exceeds the length.
#[verifier::external_body]
pub(crate) fn bytes_split_to(b: &mut Bytes, at: usize) -> (front: Bytes)
    requires
        at <= bytes_contents(*old(b)).len(),
    ensures
        bytes_contents(front) == bytes_contents(*old(b)).subrange(0, at as int),
        bytes_contents(*final(b)) == bytes_contents(*old(b)).subrange(
            at as int,
            bytes_contents(*old(b)).len() as int,
        ),
{
    b.split_to(at)
}

/// `Buf::advance` on a `Bytes`: drops the first `cnt` bytes. It panics when
/// `cnt` exceeds the length.
#[verifier::external_body]
pub(crate) fn bytes_advance(b: &mut Bytes, cnt: usize)
    requires
        cnt <= bytes_contents(*old(b)).len(),
    ensures
        bytes_contents(*final(b)) == bytes_contents(*old(b)).subrange(
            cnt as int,
            bytes_contents(*old(b)).len() as int,
        ),
{
    b.advance(cnt)
}

/// `<[u8]>::to_vec` on the bytes of a `Bytes`: a copy of them.
#[verifier::external_body]
pub(crate) fn bytes_to_vec(b: &Bytes) -> (v: Vec<u8>)
    ensures
        v@ == bytes_contents(*b),
{
    b.to_vec()
}

} // verus!

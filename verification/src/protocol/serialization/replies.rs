//! Reply Serialization
//!
//! This module handles serialization of X11 replies to wire format.

use vstd::prelude::*;
use bytes::BytesMut;
use crate::protocol::buffers::{
    buffer_limit, bytes_mut_contents, extend_from_slice, put_i16, put_u16, put_u32, put_u8,
};
use crate::protocol::connection::text_bytes;
use crate::protocol::endianness::zeros;
use crate::protocol::message::replies::{
    GetAtomNameReply, GetGeometryReply, GetPropertyReply, GetWindowAttributesReply, QueryTreeReply,
    Reply,
};
use crate::protocol::serialization::errors::put_zeros;
use crate::protocol::serialization::events::{be16, be32};

verus! {

/// A flag byte: 1 for true, 0 for false.
pub open spec fn flag(b: bool) -> u8 {
    if b {
        1
    } else {
        0
    }
}

/// 32-bit values, each most significant byte first.
pub open spec fn be32s(vs: Seq<u32>) -> Seq<u8>
    decreases vs.len(),
{
    if vs.len() == 0 {
        Seq::empty()
    } else {
        be32s(vs.drop_last()) + be32(vs.last())
    }
}

/// `n` rounded up to a multiple of 4.
pub open spec fn round4(n: nat) -> nat {
    (n + 3) / 4 * 4
}

/// GetWindowAttributes: after the reply byte, 43 bytes (44 in all: the
/// 32-byte header and the 3 words its length field counts).
pub open spec fn window_attributes_bytes(r: GetWindowAttributesReply, sequence: u16) -> Seq<u8> {
    seq![r.backing_store] + be16(sequence) + be32(3) + be32(r.visual) + be16(r.class.spec_value())
        + seq![r.bit_gravity, r.win_gravity] + be32(r.backing_planes) + be32(r.backing_pixel)
        + seq![
        flag(r.save_under),
        flag(r.map_is_installed),
        r.map_state,
        flag(r.override_redirect),
    ] + be32(r.colormap) + be32(r.all_event_masks.mask) + be32(r.your_event_mask.mask) + be32(
        r.do_not_propagate_mask.mask,
    )
}

/// GetGeometry: after the reply byte, 31 bytes.
pub open spec fn geometry_bytes(r: GetGeometryReply, sequence: u16) -> Seq<u8> {
    seq![r.depth] + be16(sequence) + be32(0) + be32(r.root) + be16(r.x as u16) + be16(r.y as u16)
        + be16(r.width) + be16(r.height) + be16(r.border_width) + zeros(10)
}

/// GetAtomName: the name's length and 22 unused bytes to fill the 32-byte
/// header, then the name, padded to 4 bytes.
pub open spec fn atom_name_bytes(r: GetAtomNameReply, sequence: u16) -> Seq<u8> {
    let name = text_bytes(r.name@);
    let padded = round4(name.len());
    seq![0u8] + be16(sequence) + be32((padded / 4) as u32) + be16(name.len() as u16) + zeros(22)
        + name + zeros((padded - name.len()) as nat)
}

/// QueryTree: root, parent, the number of children and 14 unused bytes to
/// fill the 32-byte header, then each child.
pub open spec fn query_tree_bytes(r: QueryTreeReply, sequence: u16) -> Seq<u8> {
    let n = r.children@.len();
    seq![0u8] + be16(sequence) + be32(n as u32) + be32(r.root) + be32(r.parent) + be16(n as u16)
        + zeros(14) + be32s(r.children@)
}

/// GetProperty: type, bytes after, value length, then the value padded to 4 bytes.
pub open spec fn property_bytes(r: GetPropertyReply, sequence: u16) -> Seq<u8> {
    let n = r.data@.len();
    let padded = round4(n);
    seq![r.format] + be16(sequence) + be32((padded / 4) as u32) + be32(r.property_type) + be32(
        r.bytes_after,
    ) + be32(n as u32) + zeros(12) + r.data@ + zeros((padded - n) as nat)
}

/// The wire bytes of a reply with the given sequence number. Replies
/// without an encoding of their own are sent as a 32-byte reply with an
/// empty body.
pub open spec fn reply_bytes(reply: Reply, sequence: u16) -> Seq<u8> {
    seq![1u8] + match reply {
        Reply::GetWindowAttributes(r) => window_attributes_bytes(r, sequence),
        Reply::GetGeometry(r) => geometry_bytes(r, sequence),
        Reply::InternAtom(r) => seq![0u8] + be16(sequence) + be32(0) + be32(r.atom) + zeros(20),
        Reply::GetAtomName(r) => atom_name_bytes(r, sequence),
        Reply::GrabPointer(r) => seq![r.status] + be16(sequence) + be32(0) + zeros(24),
        Reply::QueryTree(r) => query_tree_bytes(r, sequence),
        Reply::GetProperty(r) => property_bytes(r, sequence),
        _ => seq![0u8] + be16(sequence) + be32(0) + zeros(24),
    }
}

/// A reply starts with 1 and its sequence number (most significant byte
/// first) after one more byte, and is its 32-byte header and then as many
/// 4-byte words as its length field says. The bounds leave out only replies
/// whose word count would not fit the 32-bit length field.
pub proof fn lemma_reply_length(reply: Reply, sequence: u16)
    requires
        reply matches Reply::GetAtomName(r) ==> text_bytes(r.name@).len() <= 4 * 0xffff_ffff,
        reply matches Reply::QueryTree(r) ==> r.children@.len() <= 0xffff_ffff,
        reply matches Reply::GetProperty(r) ==> r.data@.len() <= 4 * 0xffff_ffff,
    ensures
        reply_bytes(reply, sequence)[0] == 1,
        reply_bytes(reply, sequence).subrange(2, 4) == be16(sequence),
        reply_bytes(reply, sequence).len() >= 32,
        reply_bytes(reply, sequence).len() == 32 + 4 * crate::protocol::endianness::u32_at(
            reply_bytes(reply, sequence),
            4,
            crate::protocol::types::ByteOrder::BigEndian,
        ),
{
    let b = reply_bytes(reply, sequence);
    let words: u32 = match reply {
        Reply::GetWindowAttributes(_) => 3,
        Reply::GetAtomName(r) => ((round4(text_bytes(r.name@).len())) / 4) as u32,
        Reply::QueryTree(r) => r.children@.len() as u32,
        Reply::GetProperty(r) => ((round4(r.data@.len())) / 4) as u32,
        _ => 0,
    };
    match reply {
        Reply::GetAtomName(r) => {
            let n = text_bytes(r.name@).len();
            lemma_round4(n);
        },
        Reply::QueryTree(r) => {
            lemma_be32s_len(r.children@);
        },
        Reply::GetProperty(r) => {
            lemma_round4(r.data@.len());
        },
        _ => {},
    }
    assert(b.subrange(4, 8) =~= be32(words));
    assert(b.subrange(2, 4) =~= be16(sequence));
    crate::protocol::endianness::lemma_u32_round_trip(
        words,
        crate::protocol::types::ByteOrder::BigEndian,
    );
    assert(b[4] == be32(words)[0] && b[5] == be32(words)[1] && b[6] == be32(words)[2] && b[7]
        == be32(words)[3]);
}

/// A GetGeometry reply carries, most significant byte first, its depth in
/// byte 1, the sequence number at 2..4, a zero length, the root window at
/// 8..12, x at 12..14, y at 14..16, the width at 16..18, the height at
/// 18..20 and the border width at 20..22, in 32 bytes.
pub proof fn lemma_geometry_reply_fields(r: GetGeometryReply, sequence: u16)
    ensures
        ({
            let b = reply_bytes(Reply::GetGeometry(r), sequence);
            let order = crate::protocol::types::ByteOrder::BigEndian;
            &&& b.len() == 32
            &&& b[0] == 1
            &&& b[1] == r.depth
            &&& crate::protocol::endianness::u16_at(b, 2, order) == sequence
            &&& crate::protocol::endianness::u32_at(b, 4, order) == 0
            &&& crate::protocol::endianness::u32_at(b, 8, order) == r.root
            &&& crate::protocol::endianness::u16_at(b, 12, order) == r.x as u16
            &&& crate::protocol::endianness::u16_at(b, 14, order) == r.y as u16
            &&& crate::protocol::endianness::u16_at(b, 16, order) == r.width
            &&& crate::protocol::endianness::u16_at(b, 18, order) == r.height
            &&& crate::protocol::endianness::u16_at(b, 20, order) == r.border_width
        }),
{
    let b = reply_bytes(Reply::GetGeometry(r), sequence);
    let order = crate::protocol::types::ByteOrder::BigEndian;
    assert(b.subrange(2, 4) =~= be16(sequence));
    assert(b.subrange(4, 8) =~= be32(0));
    assert(b.subrange(8, 12) =~= be32(r.root));
    assert(b.subrange(12, 14) =~= be16(r.x as u16));
    assert(b.subrange(14, 16) =~= be16(r.y as u16));
    assert(b.subrange(16, 18) =~= be16(r.width));
    assert(b.subrange(18, 20) =~= be16(r.height));
    assert(b.subrange(20, 22) =~= be16(r.border_width));
    crate::protocol::endianness::lemma_u16_at_encoding(b, 2, sequence, order);
    crate::protocol::endianness::lemma_u32_at_encoding(b, 4, 0, order);
    crate::protocol::endianness::lemma_u32_at_encoding(b, 8, r.root, order);
    crate::protocol::endianness::lemma_u16_at_encoding(b, 12, r.x as u16, order);
    crate::protocol::endianness::lemma_u16_at_encoding(b, 14, r.y as u16, order);
    crate::protocol::endianness::lemma_u16_at_encoding(b, 16, r.width, order);
    crate::protocol::endianness::lemma_u16_at_encoding(b, 18, r.height, order);
    crate::protocol::endianness::lemma_u16_at_encoding(b, 20, r.border_width, order);
}

/// `round4(n)` is a multiple of 4 at most 3 more than `n`.
proof fn lemma_round4(n: nat)
    ensures
        round4(n) == 4 * (round4(n) / 4),
        n <= round4(n) <= n + 3,
        round4(n) / 4 == (n + 3) / 4,
{
    assert((n + 3) / 4 * 4 == 4 * ((n + 3) / 4)) by (nonlinear_arith);
    assert((4 * ((n + 3) / 4)) / 4 == (n + 3) / 4) by (nonlinear_arith);
    assert(n <= (n + 3) / 4 * 4 <= n + 3) by (nonlinear_arith);
}

proof fn lemma_be32s_len(vs: Seq<u32>)
    ensures
        be32s(vs).len() == 4 * vs.len(),
    decreases vs.len(),
{
    if vs.len() > 0 {
        lemma_be32s_len(vs.drop_last());
    }
}

#[verifier::rlimit(40)]
fn put_window_attributes(buf: &mut BytesMut, reply: &GetWindowAttributesReply, sequence: u16)
    requires
        bytes_mut_contents(*old(buf)).len() + 43 <= buffer_limit(),
    ensures
        bytes_mut_contents(*final(buf)) == bytes_mut_contents(*old(buf)) + window_attributes_bytes(*reply, sequence),
{
    let ghost start = bytes_mut_contents(*buf);
    put_u8(buf, reply.backing_store);
    put_u16(buf, sequence);
    put_u32(buf, 3);  // Length in 4-byte units
    put_u32(buf, reply.visual);
    put_u16(buf, reply.class.to_u16());
    put_u8(buf, reply.bit_gravity);
    put_u8(buf, reply.win_gravity);
    put_u32(buf, reply.backing_planes);
    put_u32(buf, reply.backing_pixel);
    put_u8(buf, if reply.save_under { 1 } else { 0 });
    put_u8(buf, if reply.map_is_installed { 1 } else { 0 });
    put_u8(buf, reply.map_state);
    put_u8(buf, if reply.override_redirect { 1 } else { 0 });
    put_u32(buf, reply.colormap);
    put_u32(buf, reply.all_event_masks.bits());
    put_u32(buf, reply.your_event_mask.bits());
    put_u32(buf, reply.do_not_propagate_mask.bits());
    assert(bytes_mut_contents(*buf) =~= start + window_attributes_bytes(*reply, sequence));
}

fn put_geometry(buf: &mut BytesMut, reply: &GetGeometryReply, sequence: u16)
    requires
        bytes_mut_contents(*old(buf)).len() + 31 <= buffer_limit(),
    ensures
        bytes_mut_contents(*final(buf)) == bytes_mut_contents(*old(buf)) + geometry_bytes(*reply, sequence),
{
    let ghost start = bytes_mut_contents(*buf);
    put_u8(buf, reply.depth);
    put_u16(buf, sequence);
    put_u32(buf, 0);  // Reply length (0 for fixed-length replies)
    put_u32(buf, reply.root);
    put_i16(buf, reply.x);
    put_i16(buf, reply.y);
    put_u16(buf, reply.width);
    put_u16(buf, reply.height);
    put_u16(buf, reply.border_width);
    // Pad to 32 bytes total (10 bytes of padding needed)
    put_zeros(buf, 10);
    assert(bytes_mut_contents(*buf) =~= start + geometry_bytes(*reply, sequence));
}

fn put_atom_name(buf: &mut BytesMut, reply: &GetAtomNameReply, sequence: u16)
    requires
        bytes_mut_contents(*old(buf)).len() + atom_name_bytes(*reply, sequence).len() <= buffer_limit(),
    ensures
        bytes_mut_contents(*final(buf)) == bytes_mut_contents(*old(buf)) + atom_name_bytes(*reply, sequence),
{
    let ghost start = bytes_mut_contents(*buf);
    put_u8(buf, 0);  // Unused byte
    put_u16(buf, sequence);
    let name_bytes = reply.name.as_str().as_bytes();
    let padded_length = (name_bytes.len() + 3) / 4 * 4;  // Pad to 4-byte boundary
    put_u32(buf, (padded_length / 4) as u32);  // Reply length in 4-byte units
    put_u16(buf, name_bytes.len() as u16);  // Name length
    // Pad the header to 32 bytes
    put_zeros(buf, 22);
    extend_from_slice(buf, name_bytes);
    // Add padding to 4-byte boundary
    let padding = padded_length - name_bytes.len();
    put_zeros(buf, padding);
    assert(bytes_mut_contents(*buf) =~= start + atom_name_bytes(*reply, sequence));
}

fn put_query_tree(buf: &mut BytesMut, reply: &QueryTreeReply, sequence: u16)
    requires
        bytes_mut_contents(*old(buf)).len() + query_tree_bytes(*reply, sequence).len() <= buffer_limit(),
    ensures
        bytes_mut_contents(*final(buf)) == bytes_mut_contents(*old(buf)) + query_tree_bytes(*reply, sequence),
{
    let ghost start = bytes_mut_contents(*buf);
    put_u8(buf, 0);  // Unused byte
    put_u16(buf, sequence);
    let children_len = reply.children.len();
    put_u32(buf, children_len as u32);  // Reply length in 4-byte units
    put_u32(buf, reply.root);
    put_u32(buf, reply.parent);
    put_u16(buf, children_len as u16);
    // Add padding to reach 32 bytes for header
    put_zeros(buf, 14);
    // Add children
    let ghost head = bytes_mut_contents(*buf);
    proof {
        lemma_be32s_len(reply.children@);
    }
    let mut i: usize = 0;
    while i < reply.children.len()
        invariant
            i <= reply.children@.len(),
            head.len() + 4 * reply.children@.len() <= buffer_limit(),
            bytes_mut_contents(*buf) == head + be32s(reply.children@.take(i as int)),
        decreases reply.children@.len() - i,
    {
        proof {
            assert(reply.children@.take(i + 1).drop_last() =~= reply.children@.take(
                i as int,
            ));
            lemma_be32s_len(reply.children@.take(i as int));
        }
        put_u32(buf, reply.children[i]);
        i = i + 1;
        assert(bytes_mut_contents(*buf) =~= head + be32s(reply.children@.take(i as int)));
    }
    assert(reply.children@.take(i as int) =~= reply.children@);
    assert(bytes_mut_contents(*buf) =~= start + query_tree_bytes(*reply, sequence));
}

fn put_property(buf: &mut BytesMut, reply: &GetPropertyReply, sequence: u16)
    requires
        bytes_mut_contents(*old(buf)).len() + property_bytes(*reply, sequence).len() <= buffer_limit(),
    ensures
        bytes_mut_contents(*final(buf)) == bytes_mut_contents(*old(buf)) + property_bytes(*reply, sequence),
{
    let ghost start = bytes_mut_contents(*buf);
    put_u8(buf, reply.format);
    put_u16(buf, sequence);
    let data_len = reply.data.len();
    let padded_len = (data_len + 3) / 4 * 4;
    put_u32(buf, (padded_len / 4) as u32);  // Reply length in 4-byte units
    put_u32(buf, reply.property_type);
    put_u32(buf, reply.bytes_after);
    put_u32(buf, data_len as u32);  // Value length
    // Pad header to 32 bytes (12 bytes padding needed)
    put_zeros(buf, 12);
    // Add property data
    extend_from_slice(buf, reply.data.as_slice());
    // Add padding to 4-byte boundary
    let padding = padded_len - data_len;
    put_zeros(buf, padding);
    assert(bytes_mut_contents(*buf) =~= start + property_bytes(*reply, sequence));
}

/// Serialize a reply to wire format
pub fn serialize_reply(reply: &Reply, sequence: u16, buf: &mut BytesMut)
    requires
        bytes_mut_contents(*old(buf)).len() + reply_bytes(*reply, sequence).len() <= buffer_limit(),
    ensures
        bytes_mut_contents(*final(buf)) == bytes_mut_contents(*old(buf)) + reply_bytes(
            *reply,
            sequence,
        ),
{
    let ghost start = bytes_mut_contents(*buf);
    put_u8(buf, 1);  // Reply type
    let ghost mid = bytes_mut_contents(*buf);
    match reply {
        Reply::GetWindowAttributes(reply) => {
            put_window_attributes(buf, reply, sequence);
        },
        Reply::GetGeometry(reply) => {
            put_geometry(buf, reply, sequence);
        },
        Reply::InternAtom(reply) => {
            put_u8(buf, 0);  // Unused byte
            put_u16(buf, sequence);
            put_u32(buf, 0);  // Reply length (0 for fixed-length replies)
            put_u32(buf, reply.atom);
            // Pad to 32 bytes total (20 bytes of padding needed)
            put_zeros(buf, 20);
        },
        Reply::GetAtomName(reply) => {
            put_atom_name(buf, reply, sequence);
        },
        Reply::GrabPointer(reply) => {
            put_u8(buf, reply.status);  // Status byte
            put_u16(buf, sequence);
            put_u32(buf, 0);  // Reply length (0 for fixed-length replies)
            // Pad to 32 bytes total (24 bytes of padding needed)
            put_zeros(buf, 24);
        },
        Reply::QueryTree(reply) => {
            put_query_tree(buf, reply, sequence);
        },
        Reply::GetProperty(reply) => {
            put_property(buf, reply, sequence);
        },
        _ => {
            // Replies without an encoding of their own
            put_u8(buf, 0);
            put_u16(buf, sequence);
            put_u32(buf, 0);
            // Pad to 32 bytes
            put_zeros(buf, 24);
        },
    }
    assert(bytes_mut_contents(*buf) =~= start + reply_bytes(*reply, sequence));
}

} // verus!

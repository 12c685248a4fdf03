//! X11 event structures and handling

use vstd::prelude::*;
use crate::protocol::endianness::{
    lemma_u16_at_encoding, lemma_u32_at_encoding, u16_at, u32_at, u16_bytes, u32_bytes, zeros,
    EndianWriter,
};
use crate::protocol::types::{ByteOrder, WindowId};
use crate::protocol::events::xi2_event_type::RAW_MOTION;

pub mod xi2_event_type;
pub mod xi2_device;
pub mod event_mask;

verus! {

/// X11 event types
#[derive(Debug, Clone)]
pub enum Event {
    Expose(ExposeEvent),
    XIRawMotion(XIRawMotionEvent),
}

/// Expose event - sent when a window needs to be redrawn
#[derive(Debug, Clone, Copy)]
pub struct ExposeEvent {
    pub window: WindowId,
    pub x: i16,
    pub y: i16,
    pub width: u16,
    pub height: u16,
    /// Number of remaining expose events
    pub count: u16,
}

/// The 32 bytes of an Expose event.
pub open spec fn expose_event_bytes(e: ExposeEvent, order: ByteOrder, sequence_number: u16) -> Seq<
    u8,
> {
    seq![12u8, 0u8] + u16_bytes(sequence_number, order) + u32_bytes(e.window, order) + u16_bytes(
        e.x as u16,
        order,
    ) + u16_bytes(e.y as u16, order) + u16_bytes(e.width, order) + u16_bytes(e.height, order)
        + u16_bytes(e.count, order) + zeros(14)
}

/// An Expose event on the wire is 32 bytes: code 12, then in the given
/// byte order the sequence number at 2..4, the window at 4..8, x at 8..10,
/// y at 10..12, the width at 12..14, the height at 14..16 and the count at
/// 16..18.
pub proof fn lemma_expose_event_fields(e: ExposeEvent, order: ByteOrder, sequence_number: u16)
    ensures
        ({
            let b = expose_event_bytes(e, order, sequence_number);
            &&& b.len() == 32
            &&& b[0] == 12
            &&& u16_at(b, 2, order) == sequence_number
            &&& u32_at(b, 4, order) == e.window
            &&& u16_at(b, 8, order) == e.x as u16
            &&& u16_at(b, 10, order) == e.y as u16
            &&& u16_at(b, 12, order) == e.width
            &&& u16_at(b, 14, order) == e.height
            &&& u16_at(b, 16, order) == e.count
        }),
{
    let b = expose_event_bytes(e, order, sequence_number);
    assert(b.subrange(2, 4) =~= u16_bytes(sequence_number, order));
    assert(b.subrange(4, 8) =~= u32_bytes(e.window, order));
    assert(b.subrange(8, 10) =~= u16_bytes(e.x as u16, order));
    assert(b.subrange(10, 12) =~= u16_bytes(e.y as u16, order));
    assert(b.subrange(12, 14) =~= u16_bytes(e.width, order));
    assert(b.subrange(14, 16) =~= u16_bytes(e.height, order));
    assert(b.subrange(16, 18) =~= u16_bytes(e.count, order));
    lemma_u16_at_encoding(b, 2, sequence_number, order);
    lemma_u32_at_encoding(b, 4, e.window, order);
    lemma_u16_at_encoding(b, 8, e.x as u16, order);
    lemma_u16_at_encoding(b, 10, e.y as u16, order);
    lemma_u16_at_encoding(b, 12, e.width, order);
    lemma_u16_at_encoding(b, 14, e.height, order);
    lemma_u16_at_encoding(b, 16, e.count, order);
}

impl ExposeEvent {
    pub fn new(window: WindowId, x: i16, y: i16, width: u16, height: u16, count: u16) -> (r: Self)
        ensures
            r == (ExposeEvent { window, x, y, width, height, count }),
    {
        Self { window, x, y, width, height, count }
    }

    /// Serialize the expose event to bytes. `sequence_number` must be the
    /// server's current sequence number for this client (the request this
    /// event is a side effect of) - 0 is never valid here, unlike a fresh
    /// client's initial request sequence state; Xlib's event/reply demuxer
    /// relies on this field to stay consistent with what it's already
    /// tracking.
    pub fn serialize(&self, byte_order: ByteOrder, sequence_number: u16) -> (r: Vec<u8>)
        ensures
            r@ == expose_event_bytes(*self, byte_order, sequence_number),
            r@.len() == 32,
    {
        let mut writer = EndianWriter::new(Vec::new(), byte_order);
        writer.write_u8(12);  // Event code for Expose
        writer.write_u8(0);  // Unused
        writer.write_u16(sequence_number);
        writer.write_u32(self.window);
        writer.write_u16(self.x as u16);  // Cast to unsigned for transmission
        writer.write_u16(self.y as u16);
        writer.write_u16(self.width);
        writer.write_u16(self.height);
        writer.write_u16(self.count);
        writer.write_padding(14);  // Padding to 32 bytes
        let bytes = writer.into_buffer();
        assert(bytes@ =~= expose_event_bytes(*self, byte_order, sequence_number));
        bytes
    }
}

/// XI2 RawMotion event - a GenericEvent (core event code 35) wrapping XI2's
/// own `evtype`. Sent to clients that selected `XI_RawMotionMask` via
/// XISelectEvents. This server reports no per-axis valuator data
/// (`valuators_len=0`) - just the fact that the pointer moved, which is enough
/// for a client like xeyes that only wants to know "did something move" rather
/// than raw per-axis deltas.
#[derive(Debug, Clone, Copy)]
pub struct XIRawMotionEvent {
    /// The XInputExtension major opcode assigned this session - GenericEvent
    /// carries it in the `extension` field so a client with multiple
    /// GenericEvent-using extensions can tell which one an event belongs to.
    pub xinput_major_opcode: u8,
    pub deviceid: u16,
    pub sourceid: u16,
    pub time: u32,
}

/// The 32 bytes of an XI2 RawMotion GenericEvent.
pub open spec fn raw_motion_event_bytes(
    e: XIRawMotionEvent,
    order: ByteOrder,
    sequence_number: u16,
) -> Seq<u8> {
    seq![35u8, e.xinput_major_opcode] + u16_bytes(sequence_number, order) + u32_bytes(0, order)
        + u16_bytes(RAW_MOTION, order) + u16_bytes(e.deviceid, order) + u32_bytes(e.time, order)
        + u32_bytes(0, order) + u16_bytes(e.sourceid, order) + u16_bytes(0, order) + u32_bytes(
        0,
        order,
    ) + u32_bytes(0, order)
}

impl XIRawMotionEvent {
    pub fn new(xinput_major_opcode: u8, deviceid: u16, sourceid: u16, time: u32) -> (r: Self)
        ensures
            r == (XIRawMotionEvent { xinput_major_opcode, deviceid, sourceid, time }),
    {
        Self { xinput_major_opcode, deviceid, sourceid, time }
    }

    /// Serialize per xXIRawEvent's wire layout (XI2proto.h): a 32-byte
    /// fixed header, no trailing valuator mask/axis data since
    /// `valuators_len=0`. `sequence_number` has the same non-zero
    /// requirement as `ExposeEvent::serialize` - see its doc comment.
    pub fn serialize(&self, byte_order: ByteOrder, sequence_number: u16) -> (r: Vec<u8>)
        ensures
            r@ == raw_motion_event_bytes(*self, byte_order, sequence_number),
            r@.len() == 32,
    {
        let mut writer = EndianWriter::new(Vec::new(), byte_order);
        writer.write_u8(35);  // GenericEvent
        writer.write_u8(self.xinput_major_opcode);  // extension
        writer.write_u16(sequence_number);
        writer.write_u32(0);  // length: no trailing valuator data
        writer.write_u16(RAW_MOTION);  // evtype
        writer.write_u16(self.deviceid);
        writer.write_u32(self.time);
        writer.write_u32(0);  // detail: unused for RawMotion
        writer.write_u16(self.sourceid);
        writer.write_u16(0);  // valuators_len: no axis data reported
        writer.write_u32(0);  // flags
        writer.write_u32(0);  // pad2
        let bytes = writer.into_buffer();
        assert(bytes@ =~= raw_motion_event_bytes(*self, byte_order, sequence_number));
        bytes
    }
}

} // verus!

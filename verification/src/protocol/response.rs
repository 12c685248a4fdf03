//! Response types that mirror the X11 wire layout.

use vstd::prelude::*;
use super::types::{ByteOrder, ColormapId, SequenceNumber, VisualId, WindowId, XId};
use super::endianness::{
    le16, le32, lemma_u16_at_encoding, lemma_u32_at_encoding, u16_at, u32_at,
};

pub mod byte_order;
pub mod connection_status;

verus! {

// ==================== SINGLE MARKER TRAIT ====================
/// Marker trait for X11 protocol responses.
/// This is purely for type identification - no compile-time guarantees.
pub trait ProtocolResponse {

}

// ==================== CONNECTION SETUP ====================
/// Raw connection setup request from client (matches X11 protocol exactly)
#[derive(Debug, Clone, Copy, PartialEq, Eq)]
pub struct ConnectionSetupRequestRaw {
    pub byte_order: u8,
    pub unused1: u8,
    pub protocol_major_version: u16,
    pub protocol_minor_version: u16,
    pub authorization_protocol_name_length: u16,
    pub authorization_protocol_data_length: u16,
    pub unused2: u16,
}

/// Complete connection setup request with variable-length data
#[derive(Debug, Clone)]
pub struct ConnectionSetupRequest<'a> {
    pub raw: &'a ConnectionSetupRequestRaw,
    pub authorization_protocol_name: &'a str,
    pub authorization_protocol_data: &'a [u8],
}

/// The class of a visual, as the protocol numbers it.
#[derive(Debug, Clone, Copy, PartialEq, Eq)]
pub enum VisualClass {
    StaticGray,
    GrayScale,
    StaticColor,
    PseudoColor,
    TrueColor,
    DirectColor,
}

impl VisualClass {
    /// The protocol's number for this class.
    pub open spec fn spec_value(self) -> u8 {
        match self {
            VisualClass::StaticGray => 0,
            VisualClass::GrayScale => 1,
            VisualClass::StaticColor => 2,
            VisualClass::PseudoColor => 3,
            VisualClass::TrueColor => 4,
            VisualClass::DirectColor => 5,
        }
    }

    /// The protocol's number for this class.
    pub fn to_u8(self) -> (v: u8)
        ensures
            v == self.spec_value(),
    {
        match self {
            VisualClass::StaticGray => 0,
            VisualClass::GrayScale => 1,
            VisualClass::StaticColor => 2,
            VisualClass::PseudoColor => 3,
            VisualClass::TrueColor => 4,
            VisualClass::DirectColor => 5,
        }
    }

    /// The class numbered `v`; a number above 5 names no class and comes back as the error.
    pub fn try_from(v: u8) -> (r: Result<Self, u8>)
        ensures
            v <= 5 ==> (r matches Ok(c) && c.spec_value() == v),
            v > 5 ==> r == Err::<Self, u8>(v),
    {
        match v {
            0 => Ok(VisualClass::StaticGray),
            1 => Ok(VisualClass::GrayScale),
            2 => Ok(VisualClass::StaticColor),
            3 => Ok(VisualClass::PseudoColor),
            4 => Ok(VisualClass::TrueColor),
            5 => Ok(VisualClass::DirectColor),
            e => Err(e),
        }
    }
}

/// A visual class read back from its number is the same class, and only the
/// six numbers of the protocol name a class.
pub proof fn lemma_visual_class_round_trip(c: VisualClass, v: u8)
    ensures
        c.spec_value() <= 5,
        v <= 5 ==> exists|d: VisualClass| #[trigger] d.spec_value() == v,
        forall|d: VisualClass| #[trigger] d.spec_value() == c.spec_value() ==> d == c,
{
    if v <= 5 {
        if v == 0 {
            assert(VisualClass::StaticGray.spec_value() == v);
        } else if v == 1 {
            assert(VisualClass::GrayScale.spec_value() == v);
        } else if v == 2 {
            assert(VisualClass::StaticColor.spec_value() == v);
        } else if v == 3 {
            assert(VisualClass::PseudoColor.spec_value() == v);
        } else if v == 4 {
            assert(VisualClass::TrueColor.spec_value() == v);
        } else {
            assert(VisualClass::DirectColor.spec_value() == v);
        }
    }
}

impl From<VisualClass> for u8 {
    fn from(v: VisualClass) -> (r: u8) {
        v.to_u8()
    }
}

impl vstd::std_specs::convert::FromSpecImpl<VisualClass> for u8 {
    open spec fn obeys_from_spec() -> bool {
        true
    }

    open spec fn from_spec(v: VisualClass) -> u8 {
        v.spec_value()
    }
}

/// A visual as it stands in the setup reply.
#[derive(Debug, Clone, Copy, PartialEq, Eq)]
pub struct ScreenDepthVisualRaw {
    pub id: VisualId,
    pub class: u8,
    pub bits_per_rgb_value: u8,
    pub colormap_entries: u16,
    pub red_mask: u32,
    pub green_mask: u32,
    pub blue_mask: u32,
}

impl ScreenDepthVisualRaw {
    /// The visual's class, or its raw number when that names no class.
    pub fn class(&self) -> (r: Result<VisualClass, u8>)
        ensures
            self.class <= 5 ==> (r matches Ok(c) && c.spec_value() == self.class),
            self.class > 5 ==> r == Err::<VisualClass, u8>(self.class),
    {
        VisualClass::try_from(self.class)
    }
}

#[derive(Debug, PartialEq, Eq)]
pub struct ScreenDepth<'a> {
    pub depth: u8,
    pub visuals: &'a [ScreenDepthVisualRaw],
}

#[derive(Debug, Clone, Copy, PartialEq, Eq)]
pub struct ScreenRaw {
    pub root: WindowId,
    pub default_colormap: ColormapId,
    pub white_pixel: u32,
    pub black_pixel: u32,
    pub current_input_masks: u32,
    pub width_in_pixels: u16,
    pub height_in_pixels: u16,
    pub width_in_millimeters: u16,
    pub height_in_millimeters: u16,
    pub min_installed_maps: u16,
    pub max_installed_maps: u16,
    pub root_visual: u32,
    pub backing_stores: u8,
    pub save_unders: u8,
    pub root_depth: u8,
    pub allowed_depths_len: u8,
}

#[derive(Debug)]
pub struct Screen<'a> {
    pub raw: &'a ScreenRaw,
    pub allowed_depths: &'a [ScreenDepth<'a>],
}

#[derive(Debug, Clone)]
pub enum ConnectionSetupResponse<'a> {
    Accepted(ConnectionSetupAccepted<'a>),
    Refused(ConnectionSetupRefused<'a>),
    AuthRequired(ConnectionSetupAuthRequired<'a>),
    Unknown { major_version: u16, minor_version: u16, data: &'a [u8] },
}

#[derive(Debug, Clone)]
pub struct ConnectionSetupAccepted<'a> {
    pub protocol_major_version: u16,
    pub protocol_minor_version: u16,
    pub release_number: u32,
    pub resource_id_base: XId,
    pub resource_id_mask: XId,
    pub motion_buffer_size: u32,
    pub vendor: &'a str,
    pub maximum_request_length: u16,
    pub screens: &'a [Screen<'a>],
    pub pixmap_formats: &'a [PixmapFormatRaw],
    pub image_byte_order: u8,
    pub bitmap_format_bit_order: u8,
    pub bitmap_format_scanline_unit: u8,
    pub bitmap_format_scanline_pad: u8,
    pub min_keycode: u8,
    pub max_keycode: u8,
    pub extra_fields: &'a [u8],
}

#[derive(Debug, Clone)]
pub struct ConnectionSetupRefused<'a> {
    pub protocol_major_version: u16,
    pub protocol_minor_version: u16,
    pub reason: &'a str,
    pub extra_fields: &'a [u8],
}

#[derive(Debug, Clone)]
pub struct ConnectionSetupAuthRequired<'a> {
    pub protocol_major_version: u16,
    pub protocol_minor_version: u16,
    pub reason: &'a str,
    pub extra_fields: &'a [u8],
}

#[derive(Debug, Clone, Copy, PartialEq, Eq)]
pub struct PixmapFormatRaw {
    pub depth: u8,
    pub bits_per_pixel: u8,
    pub scanline_pad: u8,
}

// ==================== GET GEOMETRY ====================
/// GetGeometry response structure matching X11 protocol layout exactly (32 bytes)
#[derive(Debug, Clone, Copy, PartialEq, Eq)]
pub struct GetGeometryResponse {
    pub response_type: u8,
    pub depth: u8,
    pub sequence_number: u16,
    pub length: u32,
    pub root: WindowId,
    pub x: i16,
    pub y: i16,
    pub width: u16,
    pub height: u16,
    pub border_width: u16,
    pub unused: [u8; 10],
}

/// The 32 bytes of a GetGeometry reply, fields in order, little-endian.
pub open spec fn get_geometry_response_bytes(r: GetGeometryResponse) -> Seq<u8> {
    seq![r.response_type, r.depth] + le16(r.sequence_number) + le32(r.length) + le32(r.root)
        + le16(r.x as u16) + le16(r.y as u16) + le16(r.width) + le16(r.height) + le16(
        r.border_width,
    ) + r.unused@
}

/// A GetGeometry response on the wire carries, least significant byte
/// first, the sequence number at 2..4, the length at 4..8, the root at
/// 8..12, x and y at 12..16, the width at 16..18, the height at 18..20 and
/// the border width at 20..22.
pub proof fn lemma_get_geometry_response_fields(r: GetGeometryResponse)
    ensures
        ({
            let b = get_geometry_response_bytes(r);
            let order = ByteOrder::LittleEndian;
            &&& b[0] == r.response_type
            &&& b[1] == r.depth
            &&& u16_at(b, 2, order) == r.sequence_number
            &&& u32_at(b, 4, order) == r.length
            &&& u32_at(b, 8, order) == r.root
            &&& u16_at(b, 12, order) == r.x as u16
            &&& u16_at(b, 14, order) == r.y as u16
            &&& u16_at(b, 16, order) == r.width
            &&& u16_at(b, 18, order) == r.height
            &&& u16_at(b, 20, order) == r.border_width
        }),
{
    let b = get_geometry_response_bytes(r);
    let order = ByteOrder::LittleEndian;
    assert(b.subrange(2, 4) =~= le16(r.sequence_number));
    assert(b.subrange(4, 8) =~= le32(r.length));
    assert(b.subrange(8, 12) =~= le32(r.root));
    assert(b.subrange(12, 14) =~= le16(r.x as u16));
    assert(b.subrange(14, 16) =~= le16(r.y as u16));
    assert(b.subrange(16, 18) =~= le16(r.width));
    assert(b.subrange(18, 20) =~= le16(r.height));
    assert(b.subrange(20, 22) =~= le16(r.border_width));
    lemma_u16_at_encoding(b, 2, r.sequence_number, order);
    lemma_u32_at_encoding(b, 4, r.length, order);
    lemma_u32_at_encoding(b, 8, r.root, order);
    lemma_u16_at_encoding(b, 12, r.x as u16, order);
    lemma_u16_at_encoding(b, 14, r.y as u16, order);
    lemma_u16_at_encoding(b, 16, r.width, order);
    lemma_u16_at_encoding(b, 18, r.height, order);
    lemma_u16_at_encoding(b, 20, r.border_width, order);
}

impl GetGeometryResponse {
    /// Create a new GetGeometry response
    pub fn new(
        sequence_number: u16,
        depth: u8,
        root: WindowId,
        x: i16,
        y: i16,
        width: u16,
        height: u16,
        border_width: u16,
    ) -> (r: Self)
        ensures
            r.response_type == 1,
            r.depth == depth,
            r.sequence_number == sequence_number,
            r.length == 0,
            r.root == root,
            r.x == x,
            r.y == y,
            r.width == width,
            r.height == height,
            r.border_width == border_width,
            r.unused@ == Seq::new(10, |i: int| 0u8),
    {
        let r = Self {
            response_type: 1,
            depth,
            sequence_number,
            length: 0,
            root,
            x,
            y,
            width,
            height,
            border_width,
            unused: [0u8, 0u8, 0u8, 0u8, 0u8, 0u8, 0u8, 0u8, 0u8, 0u8],
        };
        assert(r.unused@ =~= Seq::new(10, |i: int| 0u8));
        r
    }
}

// ==================== RESPONSE ENVELOPE ====================
#[derive(Debug, Clone)]
pub struct RawResponse<'a> {
    pub data: &'a [u8],
}

#[derive(Debug, Clone)]
pub enum ResponseKind<'a> {
    Reply,
    ConnectionSetup(ConnectionSetupResponse<'a>),
    GetGeometry(GetGeometryResponse),
    Raw(RawResponse<'a>),
}

#[derive(Debug, Clone)]
pub struct Response<'a> {
    pub kind: ResponseKind<'a>,
    pub sequence_number: SequenceNumber,
    pub byte_order: ByteOrder,
}

impl<'a> Default for Response<'a> {
    fn default() -> (r: Self)
        ensures
            r.kind is Reply,
            r.sequence_number == 0,
            r.byte_order == ByteOrder::LittleEndian,
    {
        Self { kind: ResponseKind::Reply, sequence_number: 0, byte_order: ByteOrder::LittleEndian }
    }
}

impl ProtocolResponse for GetGeometryResponse {

}

impl<'a> ProtocolResponse for ConnectionSetupResponse<'a> {

}

impl<'a> ProtocolResponse for Response<'a> {

}

} // verus!

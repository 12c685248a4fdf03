//! X11 Connection Setup Protocol
//!
//! This module implements the X11 connection setup and authentication protocol.
//! The connection setup happens before any regular X11 requests.

use vstd::prelude::*;
use crate::protocol::endianness::{
    decode_u16, le16, le32, lemma_u16_at_encoding, lemma_u32_at_encoding, pad_to, u16_at, u32_at,
    zeros, EndianWriter,
};
use crate::protocol::request::copy_range;
use crate::protocol::types::{ByteOrder, X11Error};
use crate::protocol::utf8::{lossy_text, str_eq, string_from_utf8_lossy, utf8_lossy};
use vstd::utf8::encode_utf8;

verus! {

/// X11 Connection Setup Request (sent by client first)
#[derive(Debug, Clone)]
pub struct ConnectionSetupRequest {
    /// Protocol major version (usually 11)
    pub protocol_major_version: u16,
    /// Protocol minor version (usually 0)
    pub protocol_minor_version: u16,
    /// Length of authorization protocol name
    pub authorization_protocol_name_length: u16,
    /// Length of authorization protocol data
    pub authorization_protocol_data_length: u16,
    /// Authorization protocol name (e.g., "MIT-MAGIC-COOKIE-1")
    pub authorization_protocol_name: String,
    /// Authorization protocol data (the actual auth cookie)
    pub authorization_protocol_data: Vec<u8>,
}

/// X11 Connection Setup Response Status
#[derive(Debug, Clone, Copy, PartialEq, Eq, Structural)]
pub enum ConnectionSetupStatus {
    /// Connection successful
    Success,
    /// Connection failed
    Failed,
    /// Authentication required (for multi-pass auth)
    Authenticate,
}

impl ConnectionSetupStatus {
    /// The status byte on the wire.
    pub open spec fn spec_value(self) -> u8 {
        match self {
            ConnectionSetupStatus::Success => 1,
            ConnectionSetupStatus::Failed => 0,
            ConnectionSetupStatus::Authenticate => 2,
        }
    }

    /// The status byte on the wire.
    pub fn to_u8(self) -> (v: u8)
        ensures
            v == self.spec_value(),
    {
        match self {
            ConnectionSetupStatus::Success => 1,
            ConnectionSetupStatus::Failed => 0,
            ConnectionSetupStatus::Authenticate => 2,
        }
    }
}

/// X11 Connection Setup Response (sent by server)
#[derive(Debug, Clone)]
pub struct ConnectionSetupResponse {
    /// Response status
    pub status: ConnectionSetupStatus,
    /// Length of reason string (if failed/authenticate)
    pub reason_length: u8,
    /// Protocol major version
    pub protocol_major_version: u16,
    /// Protocol minor version
    pub protocol_minor_version: u16,
    /// Additional length in 4-byte units
    pub additional_data_length: u16,
    /// Reason string (for failure/authenticate)
    pub reason: String,
    /// Server information (if successful)
    pub server_info: Option<ServerInfo>,
}

/// Server information returned on successful connection
#[derive(Debug, Clone)]
pub struct ServerInfo {
    /// Server release number
    pub release: u32,
    /// Resource ID base
    pub resource_id_base: u32,
    /// Resource ID mask
    pub resource_id_mask: u32,
    /// Motion buffer size
    pub motion_buffer_size: u32,
    /// Vendor name length
    pub vendor_length: u16,
    /// Maximum request length in 4-byte units
    pub maximum_request_length: u16,
    /// Number of screens
    pub number_of_screens: u8,
    /// Number of pixmap formats
    pub number_of_pixmap_formats: u8,
    /// Image byte order (0=LSB first, 1=MSB first)
    pub image_byte_order: u8,
    /// Bitmap format bit order (0=LSB first, 1=MSB first)
    pub bitmap_format_bit_order: u8,
    /// Bitmap format scanline unit (8, 16, or 32)
    pub bitmap_format_scanline_unit: u8,
    /// Bitmap format scanline pad (8, 16, or 32)
    pub bitmap_format_scanline_pad: u8,
    /// Minimum keycode
    pub min_keycode: u8,
    /// Maximum keycode
    pub max_keycode: u8,
    /// Vendor name
    pub vendor: String,
    /// Pixmap formats
    pub pixmap_formats: Vec<PixmapFormat>,
    /// Screen information
    pub screens: Vec<ScreenInfo>,
}

/// Pixmap format information
#[derive(Debug, Clone, Copy)]
pub struct PixmapFormat {
    /// Depth in bits
    pub depth: u8,
    /// Bits per pixel
    pub bits_per_pixel: u8,
    /// Scanline pad
    pub scanline_pad: u8,
}

/// Screen information
#[derive(Debug, Clone)]
pub struct ScreenInfo {
    /// Root window ID
    pub root: u32,
    /// Default colormap
    pub default_colormap: u32,
    /// White pixel value
    pub white_pixel: u32,
    /// Black pixel value
    pub black_pixel: u32,
    /// Current input masks
    pub current_input_masks: u32,
    /// Width in pixels
    pub width_in_pixels: u16,
    /// Height in pixels
    pub height_in_pixels: u16,
    /// Width in millimeters
    pub width_in_millimeters: u16,
    /// Height in millimeters
    pub height_in_millimeters: u16,
    /// Minimum installed maps
    pub min_installed_maps: u16,
    /// Maximum installed maps
    pub max_installed_maps: u16,
    /// Root visual ID
    pub root_visual: u32,
    /// Backing stores support
    pub backing_stores: u8,
    /// Save unders support
    pub save_unders: bool,
    /// Root depth
    pub root_depth: u8,
    /// Number of allowed depths
    pub allowed_depths_len: u8,
    /// Allowed depths
    pub allowed_depths: Vec<DepthInfo>,
}

/// Depth information
#[derive(Debug, Clone)]
pub struct DepthInfo {
    /// Depth value
    pub depth: u8,
    /// Number of visuals for this depth
    pub visuals_len: u16,
    /// Visual types for this depth
    pub visuals: Vec<VisualType>,
}

/// Visual type information
#[derive(Debug, Clone, Copy)]
pub struct VisualType {
    /// Visual ID
    pub visual_id: u32,
    /// Visual class (StaticGray, GrayScale, StaticColor, PseudoColor, TrueColor, DirectColor)
    pub class: u8,
    /// Bits per RGB value
    pub bits_per_rgb_value: u8,
    /// Number of colormap entries
    pub colormap_entries: u16,
    /// Red mask
    pub red_mask: u32,
    /// Green mask
    pub green_mask: u32,
    /// Blue mask
    pub blue_mask: u32,
}

// ---------------------------------------------------------------------------
// Wire image of the setup reply
// ---------------------------------------------------------------------------

/// The UTF-8 bytes of a text.
pub open spec fn text_bytes(s: Seq<char>) -> Seq<u8> {
    encode_utf8(s)
}

/// A VISUALTYPE: 24 bytes.
pub open spec fn visual_bytes(v: VisualType) -> Seq<u8> {
    le32(v.visual_id) + seq![v.class, v.bits_per_rgb_value] + le16(v.colormap_entries) + le32(
        v.red_mask,
    ) + le32(v.green_mask) + le32(v.blue_mask) + zeros(4)
}

/// The VISUALTYPEs of a depth, in order.
pub open spec fn visuals_bytes(vs: Seq<VisualType>) -> Seq<u8>
    decreases vs.len(),
{
    if vs.len() == 0 {
        Seq::empty()
    } else {
        visuals_bytes(vs.drop_last()) + visual_bytes(vs.last())
    }
}

/// A DEPTH: depth, unused, visual count, 4 unused bytes, then the visuals.
pub open spec fn depth_bytes(d: DepthInfo) -> Seq<u8> {
    seq![d.depth, 0u8] + le16(d.visuals@.len() as u16) + zeros(4) + visuals_bytes(d.visuals@)
}

/// The DEPTHs of a screen, in order.
pub open spec fn depths_bytes(ds: Seq<DepthInfo>) -> Seq<u8>
    decreases ds.len(),
{
    if ds.len() == 0 {
        Seq::empty()
    } else {
        depths_bytes(ds.drop_last()) + depth_bytes(ds.last())
    }
}

/// A SCREEN: its 40 fixed bytes, then its depths.
pub open spec fn screen_bytes(s: ScreenInfo) -> Seq<u8> {
    le32(s.root) + le32(s.default_colormap) + le32(s.white_pixel) + le32(s.black_pixel) + le32(
        s.current_input_masks,
    ) + le16(s.width_in_pixels) + le16(s.height_in_pixels) + le16(s.width_in_millimeters) + le16(
        s.height_in_millimeters,
    ) + le16(s.min_installed_maps) + le16(s.max_installed_maps) + le32(s.root_visual) + seq![
        s.backing_stores,
        if s.save_unders {
            1u8
        } else {
            0u8
        },
        s.root_depth,
        s.allowed_depths@.len() as u8,
    ] + depths_bytes(s.allowed_depths@)
}

/// A SCREEN on the wire carries, least significant byte first, its root at
/// 0..4, its width and height in pixels at 20..24, in millimetres at 24..28,
/// its root visual at 32..36 and its root depth at byte 38.
pub proof fn lemma_screen_fields(s: ScreenInfo)
    ensures
        ({
            let b = screen_bytes(s);
            let order = ByteOrder::LittleEndian;
            &&& u32_at(b, 0, order) == s.root
            &&& u16_at(b, 20, order) == s.width_in_pixels
            &&& u16_at(b, 22, order) == s.height_in_pixels
            &&& u16_at(b, 24, order) == s.width_in_millimeters
            &&& u16_at(b, 26, order) == s.height_in_millimeters
            &&& u32_at(b, 32, order) == s.root_visual
            &&& b[38] == s.root_depth
        }),
{
    let b = screen_bytes(s);
    let order = ByteOrder::LittleEndian;
    assert(b.subrange(0, 4) =~= le32(s.root));
    assert(b.subrange(20, 22) =~= le16(s.width_in_pixels));
    assert(b.subrange(22, 24) =~= le16(s.height_in_pixels));
    assert(b.subrange(24, 26) =~= le16(s.width_in_millimeters));
    assert(b.subrange(26, 28) =~= le16(s.height_in_millimeters));
    assert(b.subrange(32, 36) =~= le32(s.root_visual));
    lemma_u32_at_encoding(b, 0, s.root, order);
    lemma_u16_at_encoding(b, 20, s.width_in_pixels, order);
    lemma_u16_at_encoding(b, 22, s.height_in_pixels, order);
    lemma_u16_at_encoding(b, 24, s.width_in_millimeters, order);
    lemma_u16_at_encoding(b, 26, s.height_in_millimeters, order);
    lemma_u32_at_encoding(b, 32, s.root_visual, order);
}

/// The SCREENs, in order.
pub open spec fn screens_bytes(ss: Seq<ScreenInfo>) -> Seq<u8>
    decreases ss.len(),
{
    if ss.len() == 0 {
        Seq::empty()
    } else {
        screens_bytes(ss.drop_last()) + screen_bytes(ss.last())
    }
}

/// A FORMAT: depth, bits per pixel, scanline pad, one pad byte.
pub open spec fn pixmap_format_bytes(f: PixmapFormat) -> Seq<u8> {
    seq![f.depth, f.bits_per_pixel, f.scanline_pad, 0u8]
}

/// The FORMATs, in order.
pub open spec fn pixmap_formats_bytes(fs: Seq<PixmapFormat>) -> Seq<u8>
    decreases fs.len(),
{
    if fs.len() == 0 {
        Seq::empty()
    } else {
        pixmap_formats_bytes(fs.drop_last()) + pixmap_format_bytes(fs.last())
    }
}

/// The server information block that follows the 8-byte reply header.
pub open spec fn server_info_bytes(i: ServerInfo) -> Seq<u8> {
    let vendor = text_bytes(i.vendor@);
    le32(i.release) + le32(i.resource_id_base) + le32(i.resource_id_mask) + le32(
        i.motion_buffer_size,
    ) + le16(vendor.len() as u16) + le16(i.maximum_request_length) + seq![
        i.number_of_screens,
        i.number_of_pixmap_formats,
        i.image_byte_order,
        i.bitmap_format_bit_order,
        i.bitmap_format_scanline_unit,
        i.bitmap_format_scanline_pad,
        i.min_keycode,
        i.max_keycode,
    ] + zeros(4) + vendor + zeros(pad_to(vendor.len(), 4)) + pixmap_formats_bytes(
        i.pixmap_formats@,
    ) + screens_bytes(i.screens@)
}

/// The setup reply: status, reason length, version, additional length, the
/// padded reason when there is one, then the server information when there is one.
pub open spec fn setup_response_bytes(r: ConnectionSetupResponse) -> Seq<u8> {
    let reason = text_bytes(r.reason@);
    seq![r.status.spec_value(), r.reason_length] + le16(r.protocol_major_version) + le16(
        r.protocol_minor_version,
    ) + le16(r.additional_data_length) + (if r.reason@.len() == 0 {
        Seq::empty()
    } else {
        reason + zeros(pad_to(reason.len(), 4))
    }) + match r.server_info {
        Some(i) => server_info_bytes(i),
        None => Seq::empty(),
    }
}

// ---------------------------------------------------------------------------
// Length of the server information in 4-byte units, as the reply header states it
// ---------------------------------------------------------------------------

/// Units of a depth list: 2 per depth plus 6 per visual.
pub open spec fn depths_units(ds: Seq<DepthInfo>) -> nat
    decreases ds.len(),
{
    if ds.len() == 0 {
        0
    } else {
        depths_units(ds.drop_last()) + 2 + 6 * ds.last().visuals@.len()
    }
}

/// Units of a screen list: 10 per screen plus its depths.
pub open spec fn screens_units(ss: Seq<ScreenInfo>) -> nat
    decreases ss.len(),
{
    if ss.len() == 0 {
        0
    } else {
        screens_units(ss.drop_last()) + 10 + depths_units(ss.last().allowed_depths@)
    }
}

/// The server information's length in 4-byte units as computed for the reply
/// header: 8 fixed units, the vendor padded to 4, the pixmap formats counted
/// at 3 bytes each and padded to 4, then the screens.
pub open spec fn server_info_units(i: ServerInfo) -> nat {
    8 + (text_bytes(i.vendor@).len() + 3) / 4 + (i.pixmap_formats@.len() * 3 + 3) / 4
        + screens_units(i.screens@)
}

// ---------------------------------------------------------------------------
// Lemmas on the wire image
// ---------------------------------------------------------------------------

proof fn lemma_visuals_len(vs: Seq<VisualType>)
    ensures
        visuals_bytes(vs).len() == 24 * vs.len(),
    decreases vs.len(),
{
    if vs.len() > 0 {
        lemma_visuals_len(vs.drop_last());
    }
}

proof fn lemma_depths_len(ds: Seq<DepthInfo>)
    ensures
        depths_bytes(ds).len() == 4 * depths_units(ds),
    decreases ds.len(),
{
    if ds.len() > 0 {
        lemma_depths_len(ds.drop_last());
        lemma_visuals_len(ds.last().visuals@);
    }
}

proof fn lemma_screen_len(s: ScreenInfo)
    ensures
        screen_bytes(s).len() == 40 + 4 * depths_units(s.allowed_depths@),
{
    lemma_depths_len(s.allowed_depths@);
}

proof fn lemma_screens_len(ss: Seq<ScreenInfo>)
    ensures
        screens_bytes(ss).len() == 4 * screens_units(ss),
    decreases ss.len(),
{
    if ss.len() > 0 {
        lemma_screens_len(ss.drop_last());
        lemma_screen_len(ss.last());
    }
}

proof fn lemma_pixmap_formats_len(fs: Seq<PixmapFormat>)
    ensures
        pixmap_formats_bytes(fs).len() == 4 * fs.len(),
    decreases fs.len(),
{
    if fs.len() > 0 {
        lemma_pixmap_formats_len(fs.drop_last());
    }
}

/// The length that the setup reply header announces for the server
/// information is the length that is actually written, whenever there are at
/// most three pixmap formats (each is written as 4 bytes, but counted as 3).
pub proof fn lemma_server_info_length_matches(i: ServerInfo)
    requires
        i.pixmap_formats@.len() <= 3,
    ensures
        server_info_bytes(i).len() == 4 * server_info_units(i),
{
    let vendor = text_bytes(i.vendor@);
    let v = vendor.len();
    let n = i.pixmap_formats@.len();
    lemma_pixmap_formats_len(i.pixmap_formats@);
    lemma_screens_len(i.screens@);
    lemma_pad4(v);
    assert(n == (n * 3 + 3) / 4) by {
        if n == 0 {
        } else if n == 1 {
        } else if n == 2 {
        } else {
        }
    }
    let head = le32(i.release) + le32(i.resource_id_base) + le32(i.resource_id_mask) + le32(
        i.motion_buffer_size,
    ) + le16(vendor.len() as u16) + le16(i.maximum_request_length) + seq![
        i.number_of_screens,
        i.number_of_pixmap_formats,
        i.image_byte_order,
        i.bitmap_format_bit_order,
        i.bitmap_format_scanline_unit,
        i.bitmap_format_scanline_pad,
        i.min_keycode,
        i.max_keycode,
    ] + zeros(4);
    assert(head.len() == 32);
    assert(server_info_bytes(i) == head + vendor + zeros(pad_to(v, 4)) + pixmap_formats_bytes(
        i.pixmap_formats@,
    ) + screens_bytes(i.screens@));
}

proof fn lemma_pad4(v: nat)
    ensures
        v + pad_to(v, 4) == 4 * ((v + 3) / 4),
{
    let r = v % 4;
    assert(v == 4 * (v / 4) + r);
    if r == 0 {
        assert((v + 3) / 4 == v / 4);
    } else {
        assert((v + 3) / 4 == v / 4 + 1);
    }
}

/// Each character takes at most four bytes in UTF-8.
proof fn lemma_text_bytes_bound(s: Seq<char>)
    ensures
        text_bytes(s).len() <= 4 * s.len(),
    decreases s.len(),
{
    if s.len() > 0 {
        lemma_text_bytes_bound(s.drop_first());
    }
}

// ---------------------------------------------------------------------------
// Writing the wire image
// ---------------------------------------------------------------------------

fn write_visual(w: &mut EndianWriter, v: &VisualType)
    requires
        old(w).order() == ByteOrder::LittleEndian,
    ensures
        final(w).contents() == old(w).contents() + visual_bytes(*v),
        final(w).order() == old(w).order(),
{
    w.write_u32(v.visual_id);
    w.write_u8(v.class);
    w.write_u8(v.bits_per_rgb_value);
    w.write_u16(v.colormap_entries);
    w.write_u32(v.red_mask);
    w.write_u32(v.green_mask);
    w.write_u32(v.blue_mask);
    w.write_padding(4);
    assert(w.contents() =~= old(w).contents() + visual_bytes(*v));
}

fn write_depth(w: &mut EndianWriter, d: &DepthInfo)
    requires
        old(w).order() == ByteOrder::LittleEndian,
    ensures
        final(w).contents() == old(w).contents() + depth_bytes(*d),
        final(w).order() == old(w).order(),
{
    let ghost start = w.contents();
    w.write_u8(d.depth);
    w.write_u8(0);
    w.write_u16(d.visuals.len() as u16);
    w.write_padding(4);
    let ghost head = seq![d.depth, 0u8] + le16(d.visuals@.len() as u16) + zeros(4);
    assert(w.contents() =~= start + head);
    let mut i: usize = 0;
    while i < d.visuals.len()
        invariant
            i <= d.visuals@.len(),
            w.order() == ByteOrder::LittleEndian,
            w.contents() == start + head + visuals_bytes(d.visuals@.take(i as int)),
        decreases d.visuals@.len() - i,
    {
        proof {
            assert(d.visuals@.take(i + 1).drop_last() =~= d.visuals@.take(i as int));
        }
        write_visual(w, &d.visuals[i]);
        i = i + 1;
        assert(w.contents() =~= start + head + visuals_bytes(d.visuals@.take(i as int)));
    }
    assert(d.visuals@.take(i as int) =~= d.visuals@);
    assert(w.contents() =~= start + depth_bytes(*d));
}

fn write_screen(w: &mut EndianWriter, s: &ScreenInfo)
    requires
        old(w).order() == ByteOrder::LittleEndian,
    ensures
        final(w).contents() == old(w).contents() + screen_bytes(*s),
        final(w).order() == old(w).order(),
{
    let ghost start = w.contents();
    w.write_u32(s.root);
    w.write_u32(s.default_colormap);
    w.write_u32(s.white_pixel);
    w.write_u32(s.black_pixel);
    w.write_u32(s.current_input_masks);
    w.write_u16(s.width_in_pixels);
    w.write_u16(s.height_in_pixels);
    w.write_u16(s.width_in_millimeters);
    w.write_u16(s.height_in_millimeters);
    w.write_u16(s.min_installed_maps);
    w.write_u16(s.max_installed_maps);
    w.write_u32(s.root_visual);
    w.write_u8(s.backing_stores);
    w.write_u8(
        if s.save_unders {
            1
        } else {
            0
        },
    );
    w.write_u8(s.root_depth);
    w.write_u8(s.allowed_depths.len() as u8);
    let ghost head = le32(s.root) + le32(s.default_colormap) + le32(s.white_pixel) + le32(
        s.black_pixel,
    ) + le32(s.current_input_masks) + le16(s.width_in_pixels) + le16(s.height_in_pixels) + le16(
        s.width_in_millimeters,
    ) + le16(s.height_in_millimeters) + le16(s.min_installed_maps) + le16(s.max_installed_maps)
        + le32(s.root_visual) + seq![
        s.backing_stores,
        if s.save_unders {
            1u8
        } else {
            0u8
        },
        s.root_depth,
        s.allowed_depths@.len() as u8,
    ];
    assert(w.contents() =~= start + head);
    let mut i: usize = 0;
    while i < s.allowed_depths.len()
        invariant
            i <= s.allowed_depths@.len(),
            w.order() == ByteOrder::LittleEndian,
            w.contents() == start + head + depths_bytes(s.allowed_depths@.take(i as int)),
        decreases s.allowed_depths@.len() - i,
    {
        proof {
            assert(s.allowed_depths@.take(i + 1).drop_last() =~= s.allowed_depths@.take(i as int));
        }
        write_depth(w, &s.allowed_depths[i]);
        i = i + 1;
        assert(w.contents() =~= start + head + depths_bytes(s.allowed_depths@.take(i as int)));
    }
    assert(s.allowed_depths@.take(i as int) =~= s.allowed_depths@);
    assert(w.contents() =~= start + screen_bytes(*s));
}

#[verifier::spinoff_prover]
fn write_server_info(w: &mut EndianWriter, info: &ServerInfo)
    requires
        old(w).order() == ByteOrder::LittleEndian,
    ensures
        final(w).contents() == old(w).contents() + server_info_bytes(*info),
        final(w).order() == old(w).order(),
{
    let ghost start = w.contents();
    let vendor = info.vendor.as_str().as_bytes();
    assert(vendor@ == text_bytes(info.vendor@));
    w.write_u32(info.release);
    w.write_u32(info.resource_id_base);
    w.write_u32(info.resource_id_mask);
    w.write_u32(info.motion_buffer_size);
    w.write_u16(vendor.len() as u16);
    w.write_u16(info.maximum_request_length);
    w.write_u8(info.number_of_screens);
    w.write_u8(info.number_of_pixmap_formats);
    w.write_u8(info.image_byte_order);
    w.write_u8(info.bitmap_format_bit_order);
    w.write_u8(info.bitmap_format_scanline_unit);
    w.write_u8(info.bitmap_format_scanline_pad);
    w.write_u8(info.min_keycode);
    w.write_u8(info.max_keycode);
    w.write_padding(4);
    w.write_bytes(vendor);
    w.write_padding((4 - (vendor.len() % 4)) % 4);
    let ghost head = le32(info.release) + le32(info.resource_id_base) + le32(
        info.resource_id_mask,
    ) + le32(info.motion_buffer_size) + le16(vendor@.len() as u16) + le16(
        info.maximum_request_length,
    ) + seq![
        info.number_of_screens,
        info.number_of_pixmap_formats,
        info.image_byte_order,
        info.bitmap_format_bit_order,
        info.bitmap_format_scanline_unit,
        info.bitmap_format_scanline_pad,
        info.min_keycode,
        info.max_keycode,
    ] + zeros(4) + vendor@ + zeros(pad_to(vendor@.len(), 4));
    assert(w.contents() =~= start + head);
    let mut i: usize = 0;
    while i < info.pixmap_formats.len()
        invariant
            i <= info.pixmap_formats@.len(),
            w.order() == ByteOrder::LittleEndian,
            w.contents() == start + head + pixmap_formats_bytes(info.pixmap_formats@.take(i as int)),
        decreases info.pixmap_formats@.len() - i,
    {
        proof {
            assert(info.pixmap_formats@.take(i + 1).drop_last() =~= info.pixmap_formats@.take(
                i as int,
            ));
        }
        let format = info.pixmap_formats[i];
        w.write_u8(format.depth);
        w.write_u8(format.bits_per_pixel);
        w.write_u8(format.scanline_pad);
        w.write_u8(0);
        i = i + 1;
        assert(w.contents() =~= start + head + pixmap_formats_bytes(
            info.pixmap_formats@.take(i as int),
        ));
    }
    assert(info.pixmap_formats@.take(i as int) =~= info.pixmap_formats@);
    let ghost mid = w.contents();
    let mut j: usize = 0;
    while j < info.screens.len()
        invariant
            j <= info.screens@.len(),
            w.order() == ByteOrder::LittleEndian,
            w.contents() == mid + screens_bytes(info.screens@.take(j as int)),
        decreases info.screens@.len() - j,
    {
        proof {
            assert(info.screens@.take(j + 1).drop_last() =~= info.screens@.take(j as int));
        }
        write_screen(w, &info.screens[j]);
        j = j + 1;
        assert(w.contents() =~= mid + screens_bytes(info.screens@.take(j as int)));
    }
    assert(info.screens@.take(j as int) =~= info.screens@);
    assert(w.contents() =~= start + server_info_bytes(*info));
}

// ---------------------------------------------------------------------------
// Copies that keep the wire image
// ---------------------------------------------------------------------------

proof fn lemma_depths_congruent(a: Seq<DepthInfo>, b: Seq<DepthInfo>)
    requires
        a.len() == b.len(),
        forall|k: int|
            0 <= k < a.len() ==> depth_bytes(#[trigger] a[k]) == depth_bytes(b[k])
                && a[k].visuals@.len() == b[k].visuals@.len(),
    ensures
        depths_bytes(a) == depths_bytes(b),
        depths_units(a) == depths_units(b),
    decreases a.len(),
{
    if a.len() > 0 {
        let k = a.len() - 1;
        assert(depth_bytes(a[k]) == depth_bytes(b[k]));
        lemma_depths_congruent(a.drop_last(), b.drop_last());
    }
}

proof fn lemma_screens_congruent(a: Seq<ScreenInfo>, b: Seq<ScreenInfo>)
    requires
        a.len() == b.len(),
        forall|k: int|
            0 <= k < a.len() ==> screen_bytes(#[trigger] a[k]) == screen_bytes(b[k])
                && depths_units(a[k].allowed_depths@) == depths_units(b[k].allowed_depths@),
    ensures
        screens_bytes(a) == screens_bytes(b),
        screens_units(a) == screens_units(b),
    decreases a.len(),
{
    if a.len() > 0 {
        let k = a.len() - 1;
        assert(screen_bytes(a[k]) == screen_bytes(b[k]));
        lemma_screens_congruent(a.drop_last(), b.drop_last());
    }
}

fn copy_depth(d: &DepthInfo) -> (r: DepthInfo)
    ensures
        r.depth == d.depth,
        r.visuals_len == d.visuals_len,
        r.visuals@ == d.visuals@,
{
    let mut visuals: Vec<VisualType> = Vec::new();
    let mut i: usize = 0;
    while i < d.visuals.len()
        invariant
            i <= d.visuals@.len(),
            visuals@ == d.visuals@.take(i as int),
        decreases d.visuals@.len() - i,
    {
        visuals.push(d.visuals[i]);
        i = i + 1;
        assert(visuals@ =~= d.visuals@.take(i as int));
    }
    assert(d.visuals@.take(i as int) =~= d.visuals@);
    DepthInfo { depth: d.depth, visuals_len: d.visuals_len, visuals }
}

fn copy_screen(s: &ScreenInfo) -> (r: ScreenInfo)
    ensures
        screen_bytes(r) == screen_bytes(*s),
        depths_units(r.allowed_depths@) == depths_units(s.allowed_depths@),
        r.allowed_depths_len == s.allowed_depths_len,
{
    let mut depths: Vec<DepthInfo> = Vec::new();
    let mut i: usize = 0;
    while i < s.allowed_depths.len()
        invariant
            i <= s.allowed_depths@.len(),
            depths@.len() == i,
            forall|k: int|
                0 <= k < i ==> depth_bytes(#[trigger] depths@[k]) == depth_bytes(
                    s.allowed_depths@[k],
                ) && depths@[k].visuals@.len() == s.allowed_depths@[k].visuals@.len(),
        decreases s.allowed_depths@.len() - i,
    {
        let d = copy_depth(&s.allowed_depths[i]);
        depths.push(d);
        i = i + 1;
    }
    proof {
        lemma_depths_congruent(depths@, s.allowed_depths@);
    }
    ScreenInfo {
        root: s.root,
        default_colormap: s.default_colormap,
        white_pixel: s.white_pixel,
        black_pixel: s.black_pixel,
        current_input_masks: s.current_input_masks,
        width_in_pixels: s.width_in_pixels,
        height_in_pixels: s.height_in_pixels,
        width_in_millimeters: s.width_in_millimeters,
        height_in_millimeters: s.height_in_millimeters,
        min_installed_maps: s.min_installed_maps,
        max_installed_maps: s.max_installed_maps,
        root_visual: s.root_visual,
        backing_stores: s.backing_stores,
        save_unders: s.save_unders,
        root_depth: s.root_depth,
        allowed_depths_len: s.allowed_depths_len,
        allowed_depths: depths,
    }
}

/// A copy of `info` with the same wire image and header length.
fn copy_server_info(info: &ServerInfo) -> (r: ServerInfo)
    ensures
        server_info_bytes(r) == server_info_bytes(*info),
        server_info_units(r) == server_info_units(*info),
        r.pixmap_formats@ == info.pixmap_formats@,
        r.vendor@ == info.vendor@,
{
    let mut formats: Vec<PixmapFormat> = Vec::new();
    let mut i: usize = 0;
    while i < info.pixmap_formats.len()
        invariant
            i <= info.pixmap_formats@.len(),
            formats@ == info.pixmap_formats@.take(i as int),
        decreases info.pixmap_formats@.len() - i,
    {
        formats.push(info.pixmap_formats[i]);
        i = i + 1;
        assert(formats@ =~= info.pixmap_formats@.take(i as int));
    }
    assert(info.pixmap_formats@.take(i as int) =~= info.pixmap_formats@);
    let mut screens: Vec<ScreenInfo> = Vec::new();
    let mut j: usize = 0;
    while j < info.screens.len()
        invariant
            j <= info.screens@.len(),
            screens@.len() == j,
            forall|k: int|
                0 <= k < j ==> screen_bytes(#[trigger] screens@[k]) == screen_bytes(
                    info.screens@[k],
                ) && depths_units(screens@[k].allowed_depths@) == depths_units(
                    info.screens@[k].allowed_depths@,
                ),
        decreases info.screens@.len() - j,
    {
        let s = copy_screen(&info.screens[j]);
        screens.push(s);
        j = j + 1;
    }
    proof {
        lemma_screens_congruent(screens@, info.screens@);
    }
    ServerInfo {
        release: info.release,
        resource_id_base: info.resource_id_base,
        resource_id_mask: info.resource_id_mask,
        motion_buffer_size: info.motion_buffer_size,
        vendor_length: info.vendor_length,
        maximum_request_length: info.maximum_request_length,
        number_of_screens: info.number_of_screens,
        number_of_pixmap_formats: info.number_of_pixmap_formats,
        image_byte_order: info.image_byte_order,
        bitmap_format_bit_order: info.bitmap_format_bit_order,
        bitmap_format_scanline_unit: info.bitmap_format_scanline_unit,
        bitmap_format_scanline_pad: info.bitmap_format_scanline_pad,
        min_keycode: info.min_keycode,
        max_keycode: info.max_keycode,
        vendor: info.vendor.clone(),
        pixmap_formats: formats,
        screens,
    }
}

// ---------------------------------------------------------------------------
// Authentication
// ---------------------------------------------------------------------------

/// Authentication result
#[derive(Debug)]
pub enum AuthenticationResult {
    /// Authentication successful
    Success,
    /// Authentication failed with reason
    Failed(String),
    /// Multi-pass authentication required with data
    AuthenticateRequired(Vec<u8>),
}

/// Authentication protocol: decides on the authorization data a client sent.
pub trait AuthenticationProtocol {
    /// Authenticate using this protocol
    fn authenticate(&self, data: &[u8]) -> Result<AuthenticationResult, X11Error>;
}

/// No authentication protocol (empty auth name)
pub struct NoAuthProtocol;

impl AuthenticationProtocol for NoAuthProtocol {
    fn authenticate(&self, data: &[u8]) -> (r: Result<AuthenticationResult, X11Error>)
        ensures
            r matches Ok(a) && a is Success,
    {
        Ok(AuthenticationResult::Success)
    }
}

/// MIT-MAGIC-COOKIE-1 authentication protocol
pub struct MitMagicCookieProtocol {
    /// Valid cookies
    valid_cookies: Vec<Vec<u8>>,
}

/// The reason given for a cookie of the wrong length.
pub open spec fn cookie_length_reason() -> Seq<char> {
    "MIT-MAGIC-COOKIE-1 requires 16-byte cookie"@
}

/// The cookies loaded at startup: those of `$XAUTHORITY`, then those of
/// `~/.Xauthority`.
pub open spec fn found_cookies(
    xauthority: Option<Vec<Vec<u8>>>,
    home: Option<Vec<Vec<u8>>>,
) -> Seq<Seq<u8>> {
    let a = match xauthority {
        Some(v) => v@.map_values(|c: Vec<u8>| c@),
        None => Seq::empty(),
    };
    let b = match home {
        Some(v) => v@.map_values(|c: Vec<u8>| c@),
        None => Seq::empty(),
    };
    a + b
}

/// The temporary cookie made from a timestamp: its 8 little-endian bytes,
/// then the constants 0x42525853 and 0xDEADBEEF, little-endian.
pub open spec fn temporary_cookie(timestamp: u64) -> Seq<u8> {
    le32((timestamp % 0x1_0000_0000) as u32) + le32((timestamp / 0x1_0000_0000) as u32) + le32(
        0x42525853,
    ) + le32(0xDEADBEEF)
}

/// A big-endian 16-bit field of an `.Xauthority` entry.
pub open spec fn be16_at(d: Seq<u8>, i: int) -> int {
    d[i] * 256 + d[i + 1]
}

/// The bytes of the protocol name that marks a magic cookie entry.
pub open spec fn magic_cookie_name() -> Seq<u8> {
    seq![
        77u8, 73u8, 84u8, 45u8, 77u8, 65u8, 71u8, 73u8, 67u8, 45u8, 67u8, 79u8, 79u8, 75u8,
        73u8, 69u8, 45u8, 49u8,
    ]
}

/// A length-prefixed field of an `.Xauthority` entry that starts at `at`: a
/// big-endian 16-bit length, then that many bytes. Gives where the bytes
/// start and where they end.
pub open spec fn xauthority_field(d: Seq<u8>, at: int) -> (int, int) {
    (at + 2, at + 2 + be16_at(d, at))
}

/// The `.Xauthority` entry that starts at `p`: a 2-byte family, then the
/// address, display, protocol name and cookie fields in turn. The entry is
/// whole when the length fields of the display, the name and the cookie each
/// lie inside the data with at least one byte after them, and the cookie's
/// bytes fit. A whole entry gives its cookie when it is a 16-byte
/// MIT-MAGIC-COOKIE-1 one, and the offset after it; one cut short gives
/// `None`.
pub open spec fn xauthority_entry(d: Seq<u8>, p: int) -> (Seq<Seq<u8>>, Option<int>) {
    let address = xauthority_field(d, p + 2);
    let display = xauthority_field(d, address.1);
    let name = xauthority_field(d, display.1);
    let cookie = xauthority_field(d, name.1);
    if display.0 < d.len() && name.0 < d.len() && cookie.0 < d.len() && cookie.1 <= d.len() {
        let found = if d.subrange(name.0, name.1) == magic_cookie_name() && cookie.1 - cookie.0
            == 16 {
            seq![d.subrange(cookie.0, cookie.1)]
        } else {
            Seq::empty()
        };
        (found, Some(cookie.1))
    } else {
        (Seq::empty(), None)
    }
}

/// The magic cookies of the entries from offset `p` on, read while more than
/// 10 bytes remain and until an entry is cut short.
pub open spec fn xauthority_cookies(d: Seq<u8>, p: int) -> Seq<Seq<u8>>
    decreases d.len() - p,
{
    if !(0 <= p && p + 10 < d.len()) {
        Seq::empty()
    } else {
        let (found, next) = xauthority_entry(d, p);
        match next {
            None => found,
            Some(q) => if q > p {
                found + xauthority_cookies(d, q)
            } else {
                found
            },
        }
    }
}

/// Nanoseconds since the Unix epoch, 0 if the clock is set before it.
#[verifier::external_body]
fn unix_time_nanos() -> u64 {
    std::time::SystemTime::now().duration_since(std::time::UNIX_EPOCH).unwrap_or_default().as_nanos() as u64
}

/// Whether two byte strings are equal.
fn bytes_equal(a: &[u8], b: &[u8]) -> (r: bool)
    ensures
        r == (a@ == b@),
{
    if a.len() != b.len() {
        return false;
    }
    let mut i: usize = 0;
    while i < a.len()
        invariant
            a@.len() == b@.len(),
            i <= a@.len(),
            forall|k: int| 0 <= k < i ==> a@[k] == b@[k],
        decreases a@.len() - i,
    {
        if a[i] != b[i] {
            return false;
        }
        i = i + 1;
    }
    assert(a@ =~= b@);
    true
}

impl MitMagicCookieProtocol {
    /// The cookies this protocol accepts.
    pub closed spec fn cookies(&self) -> Seq<Seq<u8>> {
        self.valid_cookies@.map_values(|c: Vec<u8>| c@)
    }

    /// Create the protocol with the cookies found in the two `.Xauthority`
    /// files (a temporary cookie when neither holds any).
    pub fn new(xauthority: Option<Vec<Vec<u8>>>, home: Option<Vec<Vec<u8>>>) -> (r: Self)
        ensures
            found_cookies(xauthority, home).len() > 0 ==> r.cookies() == found_cookies(
                xauthority,
                home,
            ),
            found_cookies(xauthority, home).len() == 0 ==> r.cookies().len() == 1 && exists|
                t: u64,
            | r.cookies()[0] == temporary_cookie(t),
    {
        Self::new_with_cookies(Self::load_cookies(xauthority, home))
    }

    /// Create a new MIT-MAGIC-COOKIE-1 protocol with specific cookies
    pub fn new_with_cookies(cookies: Vec<Vec<u8>>) -> (r: Self)
        ensures
            r.cookies() == cookies@.map_values(|c: Vec<u8>| c@),
    {
        Self { valid_cookies: cookies }
    }

    /// Gather the cookies found in `$XAUTHORITY` and `~/.Xauthority`; if there
    /// are none, a temporary one for development.
    pub fn load_cookies(xauthority: Option<Vec<Vec<u8>>>, home: Option<Vec<Vec<u8>>>) -> (r: Vec<
        Vec<u8>,
    >)
        ensures
            found_cookies(xauthority, home).len() > 0 ==> r@.map_values(|c: Vec<u8>| c@)
                == found_cookies(xauthority, home),
            found_cookies(xauthority, home).len() == 0 ==> r@.len() == 1 && exists|t: u64|
                r@[0]@ == temporary_cookie(t),
    {
        let mut cookies: Vec<Vec<u8>> = Vec::new();
        if let Some(mut found) = xauthority {
            cookies.append(&mut found);
        }
        if let Some(mut found) = home {
            cookies.append(&mut found);
        }
        assert(cookies@.map_values(|c: Vec<u8>| c@) =~= found_cookies(xauthority, home));
        if cookies.len() == 0 {
            cookies.push(Self::generate_temporary_cookie());
        }
        cookies
    }

    /// Generate a temporary cookie for development purposes
    pub fn generate_temporary_cookie() -> (r: Vec<u8>)
        ensures
            exists|t: u64| r@ == temporary_cookie(t),
    {
        let timestamp = unix_time_nanos();
        Self::cookie_from_timestamp(timestamp)
    }

    /// The temporary cookie for a given timestamp.
    pub fn cookie_from_timestamp(timestamp: u64) -> (r: Vec<u8>)
        ensures
            r@ == temporary_cookie(timestamp),
    {
        let mut w = EndianWriter::new(Vec::new(), ByteOrder::LittleEndian);
        w.write_u32((timestamp % 0x1_0000_0000) as u32);
        w.write_u32((timestamp / 0x1_0000_0000) as u32);
        w.write_u32(0x42525853);
        w.write_u32(0xDEADBEEF);
        let cookie = w.into_buffer();
        assert(cookie@ =~= temporary_cookie(timestamp));
        cookie
    }

    /// Parse .Xauthority binary data format: the 16-byte MIT-MAGIC-COOKIE-1
    /// cookies of its complete entries, `None` when there are none.
    pub fn parse_xauthority_data(data: &[u8]) -> (r: Option<Vec<Vec<u8>>>)
        ensures
            r matches Some(v) ==> v@.len() > 0 && v@.map_values(|c: Vec<u8>| c@)
                == xauthority_cookies(data@, 0),
            r is None ==> xauthority_cookies(data@, 0).len() == 0,
    {
        let mut cookies: Vec<Vec<u8>> = Vec::new();
        let mut offset: usize = 0;
        loop
            invariant_except_break
                offset <= data@.len(),
                xauthority_cookies(data@, 0) == cookies@.map_values(|c: Vec<u8>| c@)
                    + xauthority_cookies(data@, offset as int),
            ensures
                xauthority_cookies(data@, 0) == cookies@.map_values(|c: Vec<u8>| c@),
            decreases data@.len() - offset,
        {
            if !(offset < data.len() && data.len() - offset > 10) {
                assert(cookies@.map_values(|c: Vec<u8>| c@) + Seq::empty() =~= cookies@.map_values(
                    |c: Vec<u8>| c@,
                ));
                break;
            }
            let start = offset;
            let ghost before = cookies@.map_values(|c: Vec<u8>| c@);
            assert(before + Seq::empty() =~= before);
            offset = offset + 4;
            let addr_len = ((data[start + 2] as usize) * 256) + data[start + 3] as usize;
            if data.len() - offset <= addr_len {
                break;
            }
            offset = offset + addr_len;
            if data.len() - offset <= 2 {
                break;
            }
            let display_len = ((data[offset] as usize) * 256) + data[offset + 1] as usize;
            offset = offset + 2;
            if data.len() - offset <= display_len {
                break;
            }
            offset = offset + display_len;
            if data.len() - offset <= 2 {
                break;
            }
            let proto_len = ((data[offset] as usize) * 256) + data[offset + 1] as usize;
            offset = offset + 2;
            if data.len() - offset <= proto_len {
                break;
            }
            let proto_start = offset;
            offset = offset + proto_len;
            if data.len() - offset <= 2 {
                break;
            }
            let cookie_len = ((data[offset] as usize) * 256) + data[offset + 1] as usize;
            offset = offset + 2;
            if data.len() - offset < cookie_len {
                break;
            }
            let cookie_start = offset;
            offset = offset + cookie_len;
            let protocol_name = copy_range(data, proto_start, proto_start + proto_len);
            let magic: [u8; 18] = [77, 73, 84, 45, 77, 65, 71, 73, 67, 45, 67, 79, 79, 75, 73, 69, 45, 49];
            assert(magic@ =~= magic_cookie_name());
            if bytes_equal(protocol_name.as_slice(), magic.as_slice()) && cookie_len == 16 {
                cookies.push(copy_range(data, cookie_start, cookie_start + cookie_len));
            }
            assert(cookies@.map_values(|c: Vec<u8>| c@) =~= before + xauthority_entry(
                data@,
                start as int,
            ).0);
        }
        if cookies.len() == 0 {
            None
        } else {
            Some(cookies)
        }
    }

    /// Add a new valid cookie
    pub fn add_cookie(&mut self, cookie: Vec<u8>) -> (r: Result<(), X11Error>)
        ensures
            r is Ok <==> cookie@.len() == 16,
            r is Ok ==> final(self).cookies() == old(self).cookies().push(cookie@),
            r is Err ==> final(self).cookies() == old(self).cookies(),
    {
        if cookie.len() != 16 {
            return Err(X11Error::Protocol("MIT-MAGIC-COOKIE-1 requires 16-byte cookie".to_owned()));
        }
        self.valid_cookies.push(cookie);
        assert(self.cookies() =~= old(self).cookies().push(cookie@));
        Ok(())
    }

    /// Remove all cookies
    pub fn clear_cookies(&mut self)
        ensures
            final(self).cookies().len() == 0,
    {
        self.valid_cookies.clear();
    }

    /// Get the number of valid cookies
    pub fn cookie_count(&self) -> (n: usize)
        ensures
            n == self.cookies().len(),
    {
        self.valid_cookies.len()
    }
}

impl AuthenticationProtocol for MitMagicCookieProtocol {
    fn authenticate(&self, data: &[u8]) -> (r: Result<AuthenticationResult, X11Error>)
        ensures
            r is Ok,
            data@.len() != 16 ==> (r matches Ok(AuthenticationResult::Failed(m)) && m@
                == cookie_length_reason()),
            data@.len() == 16 && self.cookies().contains(data@) ==> r matches Ok(
                AuthenticationResult::Success,
            ),
            data@.len() == 16 && !self.cookies().contains(data@) ==> (r matches Ok(
                AuthenticationResult::Failed(m),
            ) && m@ == "Invalid cookie"@),
    {
        if data.len() != 16 {
            return Ok(
                AuthenticationResult::Failed(
                    "MIT-MAGIC-COOKIE-1 requires 16-byte cookie".to_owned(),
                ),
            );
        }
        let mut i: usize = 0;
        while i < self.valid_cookies.len()
            invariant
                i <= self.valid_cookies@.len(),
                data@.len() == 16,
                forall|k: int| 0 <= k < i ==> self.cookies()[k] != data@,
            decreases self.valid_cookies@.len() - i,
        {
            if bytes_equal(data, self.valid_cookies[i].as_slice()) {
                assert(self.cookies()[i as int] == data@);
                assert(self.cookies().contains(data@));
                return Ok(AuthenticationResult::Success);
            }
            i = i + 1;
        }
        Ok(AuthenticationResult::Failed("Invalid cookie".to_owned()))
    }
}

// ---------------------------------------------------------------------------
// The connection handler
// ---------------------------------------------------------------------------

/// Whether the setup handshake accepts a client's authorization.
pub open spec fn setup_auth_accepted(cookies: Seq<Seq<u8>>, name: Seq<char>, data: Seq<u8>) -> bool {
    if name == ""@ {
        true
    } else if name == "MIT-MAGIC-COOKIE-1"@ {
        data.len() == 16 && cookies.contains(data)
    } else {
        false
    }
}

/// The 4-byte units a refusal's reason takes after the 8-byte header: its bytes,
/// padded to a multiple of 4.
pub open spec fn reason_units(reason: Seq<char>) -> u16 {
    ((text_bytes(reason).len() + 3) / 4) as u16
}

/// The refusal reply for `reason`: status Failed, version 11.0, the reason's byte
/// length, and the reason's padded length in 4-byte units.
pub open spec fn refusal_reply(resp: ConnectionSetupResponse, reason: Seq<char>) -> bool {
    &&& resp.status == ConnectionSetupStatus::Failed
    &&& resp.protocol_major_version == 11
    &&& resp.protocol_minor_version == 0
    &&& resp.reason@ == reason
    &&& resp.reason_length == text_bytes(reason).len() as u8
    &&& resp.additional_data_length == reason_units(reason)
    &&& resp.server_info is None
}

/// An ASCII text is as many bytes as characters.
proof fn lemma_ascii_text_len(s: Seq<char>)
    requires
        vstd::utf8::is_ascii_chars(s),
    ensures
        text_bytes(s).len() == s.len(),
{
    vstd::utf8::is_ascii_chars_encode_utf8(s);
}

/// The reasons the setup handshake can give are short ASCII texts.
proof fn lemma_refusal_reasons_short(cookies: Seq<Seq<u8>>, name: Seq<char>, data: Seq<u8>)
    ensures
        text_bytes("Unsupported protocol version"@).len() == 28,
        text_bytes(setup_auth_reason(cookies, name, data)).len() < 256,
{
    reveal_strlit("Unsupported protocol version");
    reveal_strlit("MIT-MAGIC-COOKIE-1 requires 16-byte cookie");
    reveal_strlit("Invalid cookie");
    reveal_strlit("Unknown authentication protocol");
    reveal_strlit("MIT-MAGIC-COOKIE-1");
    let a = "Unsupported protocol version"@;
    let b = cookie_length_reason();
    let c = "Invalid cookie"@;
    let d = "Unknown authentication protocol"@;
    assert(vstd::utf8::is_ascii_chars(a));
    assert(vstd::utf8::is_ascii_chars(b));
    assert(vstd::utf8::is_ascii_chars(c));
    assert(vstd::utf8::is_ascii_chars(d));
    lemma_ascii_text_len(a);
    lemma_ascii_text_len(b);
    lemma_ascii_text_len(c);
    lemma_ascii_text_len(d);
}

/// The 4-byte units of `n` bytes padded to a multiple of 4, as the 16-bit
/// length field of a setup reply holds them.
fn reason_units_of(n: usize) -> (u: u16)
    requires
        n < 0x1000,
    ensures
        u == (n + 3) / 4,
{
    let units = (n + 3) / 4;
    assert(units < 0x1_0000) by (nonlinear_arith)
        requires
            n < 0x1000,
            units == (n + 3) / 4,
    ;
    units as u16
}

/// The reason the setup handshake gives when it refuses a client's authorization.
pub open spec fn setup_auth_reason(cookies: Seq<Seq<u8>>, name: Seq<char>, data: Seq<u8>) -> Seq<
    char,
> {
    if name == "MIT-MAGIC-COOKIE-1"@ {
        if data.len() != 16 {
            cookie_length_reason()
        } else {
            "Invalid cookie"@
        }
    } else {
        "Unknown authentication protocol"@
    }
}

/// Where a client's setup request ends, as its two length fields give it:
/// 12 bytes, then the name and the data, each padded to 4 bytes.
pub open spec fn setup_request_len(name_len: int, data_len: int) -> int {
    12 + (name_len + 3) / 4 * 4 + (data_len + 3) / 4 * 4
}

/// The byte order a setup request announces in its first byte, if it is `l` or `B`.
pub open spec fn setup_byte_order(first: u8) -> Option<ByteOrder> {
    if first == 0x6c {
        Some(ByteOrder::LittleEndian)
    } else if first == 0x42 {
        Some(ByteOrder::BigEndian)
    } else {
        None
    }
}

/// X11 Connection Handler
pub struct ConnectionHandler {
    /// The protocol for an empty authorization name
    no_auth: NoAuthProtocol,
    /// The protocol for "MIT-MAGIC-COOKIE-1"
    mit_magic_cookie: MitMagicCookieProtocol,
    /// Server info to send to clients
    server_info: ServerInfo,
}

proof fn lemma_screens_units_step(ss: Seq<ScreenInfo>, i: int)
    requires
        0 <= i < ss.len(),
    ensures
        screens_units(ss.take(i + 1)) == screens_units(ss.take(i)) + 10 + depths_units(
            ss[i].allowed_depths@,
        ),
{
    assert(ss.take(i + 1).drop_last() =~= ss.take(i));
}

proof fn lemma_screens_units_prefix(ss: Seq<ScreenInfo>, i: int)
    requires
        0 <= i <= ss.len(),
    ensures
        screens_units(ss.take(i)) <= screens_units(ss),
    decreases ss.len() - i,
{
    if i < ss.len() {
        lemma_screens_units_step(ss, i);
        lemma_screens_units_prefix(ss, i + 1);
    } else {
        assert(ss.take(i) =~= ss);
    }
}

proof fn lemma_depths_units_step(ds: Seq<DepthInfo>, i: int)
    requires
        0 <= i < ds.len(),
    ensures
        depths_units(ds.take(i + 1)) == depths_units(ds.take(i)) + 2 + 6 * ds[i].visuals@.len(),
{
    assert(ds.take(i + 1).drop_last() =~= ds.take(i));
}

proof fn lemma_depths_units_prefix(ds: Seq<DepthInfo>, i: int)
    requires
        0 <= i <= ds.len(),
    ensures
        depths_units(ds.take(i)) <= depths_units(ds),
    decreases ds.len() - i,
{
    if i < ds.len() {
        lemma_depths_units_step(ds, i);
        lemma_depths_units_prefix(ds, i + 1);
    } else {
        assert(ds.take(i) =~= ds);
    }
}

impl ConnectionHandler {
    #[verifier::type_invariant]
    spec fn inv(&self) -> bool {
        &&& server_info_units(self.server_info) <= 0xffff
        &&& self.server_info.pixmap_formats@.len() <= 3
    }

    /// The server information this handler sends to clients.
    pub closed spec fn info(&self) -> ServerInfo {
        self.server_info
    }

    /// The cookies that MIT-MAGIC-COOKIE-1 accepts.
    pub closed spec fn cookies(&self) -> Seq<Seq<u8>> {
        self.mit_magic_cookie.cookies()
    }

    /// Create a new connection handler; MIT-MAGIC-COOKIE-1 accepts the cookies
    /// found in `$XAUTHORITY` and `~/.Xauthority` (a temporary one if none).
    pub fn new(xauthority: Option<Vec<Vec<u8>>>, home: Option<Vec<Vec<u8>>>) -> (r: Self)
        ensures
            found_cookies(xauthority, home).len() > 0 ==> r.cookies() == found_cookies(
                xauthority,
                home,
            ),
            found_cookies(xauthority, home).len() == 0 ==> r.cookies().len() == 1 && exists|
                t: u64,
            | r.cookies()[0] == temporary_cookie(t),
            default_server_info(r.info()),
    {
        let server_info = Self::create_default_server_info();
        Self {
            no_auth: NoAuthProtocol,
            mit_magic_cookie: MitMagicCookieProtocol::new(xauthority, home),
            server_info,
        }
    }

    /// Handle connection setup request
    pub fn handle_connection_setup(&self, setup_request: ConnectionSetupRequest) -> (r: Result<
        ConnectionSetupResponse,
        X11Error,
    >)
        ensures
            r matches Ok(resp) && resp.protocol_major_version == 11
                && resp.protocol_minor_version == 0 && if setup_request.protocol_major_version
                != 11 {
                &&& refusal_reply(resp, "Unsupported protocol version"@)
                &&& text_bytes("Unsupported protocol version"@).len() == 28
                &&& setup_response_bytes(resp).len() == 8 + 4 * resp.additional_data_length
            } else if setup_auth_accepted(
                self.cookies(),
                setup_request.authorization_protocol_name@,
                setup_request.authorization_protocol_data@,
            ) {
                &&& resp.status == ConnectionSetupStatus::Success
                &&& resp.reason_length == 0
                &&& resp.reason@.len() == 0
                &&& resp.additional_data_length == server_info_units(self.info())
                &&& resp.server_info matches Some(i) && server_info_bytes(i) == server_info_bytes(
                    self.info(),
                )
                &&& setup_response_bytes(resp).len() == 8 + 4 * resp.additional_data_length
            } else {
                &&& refusal_reply(
                    resp,
                    setup_auth_reason(
                        self.cookies(),
                        setup_request.authorization_protocol_name@,
                        setup_request.authorization_protocol_data@,
                    ),
                )
                &&& setup_response_bytes(resp).len() == 8 + 4 * resp.additional_data_length
            },
    {
        proof {
            lemma_refusal_reasons_short(
                self.cookies(),
                setup_request.authorization_protocol_name@,
                setup_request.authorization_protocol_data@,
            );
        }
        if setup_request.protocol_major_version != 11 {
            return Ok(Self::refusal("Unsupported protocol version".to_owned()));
        }
        let auth_result = self.authenticate(
            setup_request.authorization_protocol_name.as_str(),
            setup_request.authorization_protocol_data.as_slice(),
        );
        match auth_result {
            Ok(AuthenticationResult::Success) => Ok(self.success_response()),
            Ok(AuthenticationResult::Failed(reason)) => Ok(Self::refusal(reason)),
            Ok(AuthenticationResult::AuthenticateRequired(data)) => {
                Ok(
                    ConnectionSetupResponse {
                        status: ConnectionSetupStatus::Authenticate,
                        reason_length: data.len() as u8,
                        protocol_major_version: 11,
                        protocol_minor_version: 0,
                        additional_data_length: reason_units_of(data.len()),
                        reason: string_from_utf8_lossy(data.as_slice()),
                        server_info: None,
                    },
                )
            },
            Err(e) => Err(e),
        }
    }

    /// The reply that refuses a connection for `reason`: the reason's byte length,
    /// then the reason padded to 4-byte units, which the length field counts.
    fn refusal(reason: String) -> (resp: ConnectionSetupResponse)
        requires
            text_bytes(reason@).len() < 256,
        ensures
            refusal_reply(resp, reason@),
            setup_response_bytes(resp).len() == 8 + 4 * resp.additional_data_length,
    {
        let n = reason.as_str().len();
        let resp = ConnectionSetupResponse {
            status: ConnectionSetupStatus::Failed,
            reason_length: n as u8,
            protocol_major_version: 11,
            protocol_minor_version: 0,
            additional_data_length: reason_units_of(n),
            reason,
            server_info: None,
        };
        proof {
            let t = text_bytes(resp.reason@);
            if resp.reason@.len() == 0 {
                assert(t =~= Seq::<u8>::empty());
            } else {
                assert(t.len() > 0) by {
                    vstd::utf8::encode_utf8_first_scalar(resp.reason@);
                }
            }
            assert(t.len() + pad_to(t.len(), 4) == 4 * ((t.len() + 3) / 4)) by (nonlinear_arith)
                requires
                    pad_to(t.len(), 4) == ((4 - (t.len() % 4) as int) % 4 as int) as nat,
            ;
        }
        resp
    }

    /// The reply that accepts a connection: it carries this handler's server information.
    #[verifier::spinoff_prover]
    fn success_response(&self) -> (resp: ConnectionSetupResponse)
        ensures
            resp.protocol_major_version == 11,
            resp.protocol_minor_version == 0,
            resp.status == ConnectionSetupStatus::Success,
            resp.reason_length == 0,
            resp.reason@.len() == 0,
            resp.additional_data_length == server_info_units(self.info()),
            resp.server_info matches Some(i) && server_info_bytes(i) == server_info_bytes(
                self.info(),
            ),
            setup_response_bytes(resp).len() == 8 + 4 * resp.additional_data_length,
    {
        proof {
            use_type_invariant(self);
            lemma_server_info_length_matches(self.server_info);
        }
        let info = copy_server_info(&self.server_info);
        let resp = ConnectionSetupResponse {
            status: ConnectionSetupStatus::Success,
            reason_length: 0,
            protocol_major_version: 11,
            protocol_minor_version: 0,
            additional_data_length: self.calculate_server_info_length(),
            reason: String::new(),
            server_info: Some(info),
        };
        assert(setup_response_bytes(resp) =~= seq![1u8, 0u8] + le16(11) + le16(0) + le16(
            resp.additional_data_length,
        ) + server_info_bytes(info));
        resp
    }

    /// Authenticate a connection request with the protocol it names.
    fn authenticate(&self, protocol_name: &str, protocol_data: &[u8]) -> (r: Result<
        AuthenticationResult,
        X11Error,
    >)
        ensures
            r is Ok,
            setup_auth_accepted(self.cookies(), protocol_name@, protocol_data@) ==> r matches Ok(
                AuthenticationResult::Success,
            ),
            !setup_auth_accepted(self.cookies(), protocol_name@, protocol_data@) ==> (r matches Ok(
                AuthenticationResult::Failed(m),
            ) && m@ == setup_auth_reason(self.cookies(), protocol_name@, protocol_data@)),
    {
        if str_eq(protocol_name, "") {
            self.no_auth.authenticate(protocol_data)
        } else if str_eq(protocol_name, "MIT-MAGIC-COOKIE-1") {
            self.mit_magic_cookie.authenticate(protocol_data)
        } else {
            Ok(AuthenticationResult::Failed("Unknown authentication protocol".to_owned()))
        }
    }

    /// Calculate the length of server info in 4-byte units
    fn calculate_server_info_length(&self) -> (n: u16)
        ensures
            n == server_info_units(self.info()),
    {
        proof {
            use_type_invariant(self);
        }
        let info = &self.server_info;
        let ghost total = server_info_units(*info);
        let mut length: u16 = 8;
        let vendor_len = info.vendor.as_str().len();
        length = length + ((vendor_len + 3) / 4) as u16;
        let pixmap_formats_len = info.pixmap_formats.len() * 3;
        length = length + ((pixmap_formats_len + 3) / 4) as u16;
        let ghost base = length as int;
        let mut i: usize = 0;
        while i < info.screens.len()
            invariant
                i <= info.screens@.len(),
                total <= 0xffff,
                total == base + screens_units(info.screens@),
                length == base + screens_units(info.screens@.take(i as int)),
            decreases info.screens@.len() - i,
        {
            proof {
                lemma_screens_units_step(info.screens@, i as int);
                lemma_screens_units_prefix(info.screens@, i + 1);
            }
            let screen = &info.screens[i];
            length = length + 10;
            let ghost before = length as int;
            let mut j: usize = 0;
            while j < screen.allowed_depths.len()
                invariant
                    j <= screen.allowed_depths@.len(),
                    before + depths_units(screen.allowed_depths@) <= 0xffff,
                    length == before + depths_units(screen.allowed_depths@.take(j as int)),
                decreases screen.allowed_depths@.len() - j,
            {
                proof {
                    lemma_depths_units_step(screen.allowed_depths@, j as int);
                    lemma_depths_units_prefix(screen.allowed_depths@, j + 1);
                }
                let depth = &screen.allowed_depths[j];
                length = length + 2;
                length = length + (depth.visuals.len() * 6) as u16;
                j = j + 1;
            }
            assert(screen.allowed_depths@.take(j as int) =~= screen.allowed_depths@);
            i = i + 1;
        }
        assert(info.screens@.take(i as int) =~= info.screens@);
        length
    }

    /// Parse connection setup request from bytes
    pub fn parse_setup_request(data: &[u8]) -> (r: Result<ConnectionSetupRequest, X11Error>)
        ensures
            r is Ok <==> data@.len() >= 12 && setup_byte_order(data@[0]) is Some && data@.len()
                >= setup_request_len(
                u16_at(data@, 6, setup_byte_order(data@[0])->0) as int,
                u16_at(data@, 8, setup_byte_order(data@[0])->0) as int,
            ),
            r matches Err(e) ==> e is Protocol,
            r matches Ok(req) ==> {
                let o = setup_byte_order(data@[0])->0;
                let n = u16_at(data@, 6, o) as int;
                let d = u16_at(data@, 8, o) as int;
                let data_start = 12 + (n + 3) / 4 * 4;
                &&& req.protocol_major_version == u16_at(data@, 2, o)
                &&& req.protocol_minor_version == u16_at(data@, 4, o)
                &&& req.authorization_protocol_name_length == n
                &&& req.authorization_protocol_data_length == d
                &&& req.authorization_protocol_name@ == lossy_text(data@.subrange(12, 12 + n))
                &&& req.authorization_protocol_data@ == data@.subrange(data_start, data_start + d)
            },
    {
        if data.len() < 12 {
            return Err(X11Error::Protocol("Connection setup request too short".to_owned()));
        }
        let byte_order = data[0];
        if byte_order != 0x6c && byte_order != 0x42 {
            return Err(X11Error::Protocol("Invalid byte order".to_owned()));
        }
        let order = if byte_order == 0x6c {
            ByteOrder::LittleEndian
        } else {
            ByteOrder::BigEndian
        };
        let protocol_major_version = decode_u16(data[2], data[3], order);
        let protocol_minor_version = decode_u16(data[4], data[5], order);
        let auth_name_length = decode_u16(data[6], data[7], order) as usize;
        let auth_data_length = decode_u16(data[8], data[9], order) as usize;
        let name_padded = (auth_name_length + 3) / 4 * 4;
        let data_padded = (auth_data_length + 3) / 4 * 4;
        if data.len() - 12 < name_padded || data.len() - 12 - name_padded < data_padded {
            return Err(X11Error::Protocol("Connection setup request incomplete".to_owned()));
        }
        let offset: usize = 12;
        let auth_name = if auth_name_length > 0 {
            string_from_utf8_lossy(&data[offset..offset + auth_name_length])
        } else {
            String::new()
        };
        let offset = offset + name_padded;
        let auth_data = copy_range(data, offset, offset + auth_data_length);
        Ok(
            ConnectionSetupRequest {
                protocol_major_version,
                protocol_minor_version,
                authorization_protocol_name_length: auth_name_length as u16,
                authorization_protocol_data_length: auth_data_length as u16,
                authorization_protocol_name: auth_name,
                authorization_protocol_data: auth_data,
            },
        )
    }

    /// Serialize connection setup response to bytes
    pub fn serialize_setup_response(&self, response: &ConnectionSetupResponse) -> (r: Result<
        Vec<u8>,
        X11Error,
    >)
        ensures
            r matches Ok(b) && b@ == setup_response_bytes(*response),
    {
        let mut w = EndianWriter::new(Vec::new(), ByteOrder::LittleEndian);
        w.write_u8(response.status.to_u8());
        w.write_u8(response.reason_length);
        w.write_u16(response.protocol_major_version);
        w.write_u16(response.protocol_minor_version);
        w.write_u16(response.additional_data_length);
        let ghost head = seq![response.status.spec_value(), response.reason_length] + le16(
            response.protocol_major_version,
        ) + le16(response.protocol_minor_version) + le16(response.additional_data_length);
        assert(w.contents() =~= head);
        let ghost reason_part = if response.reason@.len() == 0 {
            Seq::<u8>::empty()
        } else {
            text_bytes(response.reason@) + zeros(pad_to(text_bytes(response.reason@).len(), 4))
        };
        if !response.reason.as_str().is_empty() {
            let reason_bytes = response.reason.as_str().as_bytes();
            w.write_bytes(reason_bytes);
            w.write_padding((4 - (reason_bytes.len() % 4)) % 4);
        }
        assert(w.contents() =~= head + reason_part);
        if let Some(server_info) = &response.server_info {
            write_server_info(&mut w, server_info);
        }
        let data = w.into_buffer();
        assert(data@ =~= setup_response_bytes(*response));
        Ok(data)
    }

    /// Create default server info
    fn create_default_server_info() -> (r: ServerInfo)
        ensures
            default_server_info(r),
    {
        let vendor = "RX-Server (Rust X11)".to_owned();
        proof {
            reveal_strlit("RX-Server (Rust X11)");
            lemma_text_bytes_bound(vendor@);
        }
        let vendor_length = vendor.as_str().len() as u16;
        let visuals = vec![
            VisualType {
                visual_id: 0x21,
                class: 4,
                bits_per_rgb_value: 8,
                colormap_entries: 256,
                red_mask: 0x00ff0000,
                green_mask: 0x0000ff00,
                blue_mask: 0x000000ff,
            },
        ];
        let depths = vec![DepthInfo { depth: 24, visuals_len: 1, visuals }];
        let formats = vec![PixmapFormat { depth: 24, bits_per_pixel: 32, scanline_pad: 32 }];
        assert(formats@ =~= seq![PixmapFormat { depth: 24, bits_per_pixel: 32, scanline_pad: 32 }]);
        let screens = vec![
            ScreenInfo {
                root: 1,
                default_colormap: 2,
                white_pixel: 0xffffff,
                black_pixel: 0x000000,
                current_input_masks: 0,
                width_in_pixels: 1920,
                height_in_pixels: 1080,
                width_in_millimeters: 508,
                height_in_millimeters: 286,
                min_installed_maps: 1,
                max_installed_maps: 1,
                root_visual: 0x21,
                backing_stores: 0,
                save_unders: false,
                root_depth: 24,
                allowed_depths_len: 1,
                allowed_depths: depths,
            },
        ];
        let r = ServerInfo {
            release: 11000000,
            resource_id_base: 0x00400000,
            resource_id_mask: 0x003fffff,
            motion_buffer_size: 256,
            vendor_length,
            maximum_request_length: 65535,
            number_of_screens: 1,
            number_of_pixmap_formats: 1,
            image_byte_order: 0,
            bitmap_format_bit_order: 0,
            bitmap_format_scanline_unit: 32,
            bitmap_format_scanline_pad: 32,
            min_keycode: 8,
            max_keycode: 255,
            vendor,
            pixmap_formats: formats,
            screens,
        };
        proof {
            reveal_strlit("RX-Server (Rust X11)");
            lemma_text_bytes_bound(r.vendor@);
            assert(r.screens@.drop_last() =~= Seq::<ScreenInfo>::empty());
            assert(r.screens@[0].allowed_depths@.drop_last() =~= Seq::<DepthInfo>::empty());
            let s0 = r.screens@[0];
            assert(depths_units(Seq::<DepthInfo>::empty()) == 0);
            assert(screens_units(Seq::<ScreenInfo>::empty()) == 0);
            assert(s0.allowed_depths@[0].visuals@.len() == 1);
            assert(s0.allowed_depths@[0].visuals@ =~= seq![
                VisualType {
                    visual_id: 0x21,
                    class: 4,
                    bits_per_rgb_value: 8,
                    colormap_entries: 256,
                    red_mask: 0x00ff0000,
                    green_mask: 0x0000ff00,
                    blue_mask: 0x000000ff,
                },
            ]);
            assert(depths_units(s0.allowed_depths@) == 8);
            assert(screens_units(r.screens@) == 18);
        }
        r
    }
}

/// The server information a handler starts with: one 1920x1080 screen of
/// depth 24 with one TrueColor (class 4) visual 0x21 of 8 bits per RGB value
/// and masks 0xff0000, 0xff00 and 0xff, one pixmap format, vendor
/// "RX-Server (Rust X11)".
pub open spec fn default_server_info(i: ServerInfo) -> bool {
    &&& i.release == 11000000
    &&& i.resource_id_base == 0x00400000
    &&& i.resource_id_mask == 0x003fffff
    &&& i.motion_buffer_size == 256
    &&& i.vendor@ == "RX-Server (Rust X11)"@
    &&& i.vendor_length == text_bytes(i.vendor@).len()
    &&& i.maximum_request_length == 65535
    &&& i.number_of_screens == 1
    &&& i.number_of_pixmap_formats == 1
    &&& i.image_byte_order == 0
    &&& i.bitmap_format_bit_order == 0
    &&& i.bitmap_format_scanline_unit == 32
    &&& i.bitmap_format_scanline_pad == 32
    &&& i.min_keycode == 8
    &&& i.max_keycode == 255
    &&& i.pixmap_formats@ == seq![PixmapFormat { depth: 24, bits_per_pixel: 32, scanline_pad: 32 }]
    &&& i.screens@.len() == 1
    &&& i.screens@[0].width_in_pixels == 1920
    &&& i.screens@[0].height_in_pixels == 1080
    &&& i.screens@[0].width_in_millimeters == 508
    &&& i.screens@[0].height_in_millimeters == 286
    &&& i.screens@[0].root == 1
    &&& i.screens@[0].root_visual == 0x21
    &&& i.screens@[0].root_depth == 24
    &&& i.screens@[0].default_colormap == 2
    &&& i.screens@[0].white_pixel == 0xffffff
    &&& i.screens@[0].black_pixel == 0
    &&& i.screens@[0].current_input_masks == 0
    &&& i.screens@[0].min_installed_maps == 1
    &&& i.screens@[0].max_installed_maps == 1
    &&& i.screens@[0].backing_stores == 0
    &&& !i.screens@[0].save_unders
    &&& i.screens@[0].allowed_depths_len == 1
    &&& i.screens@[0].allowed_depths@.len() == 1
    &&& i.screens@[0].allowed_depths@[0].depth == 24
    &&& i.screens@[0].allowed_depths@[0].visuals_len == 1
    &&& i.screens@[0].allowed_depths@[0].visuals@ == seq![
        VisualType {
            visual_id: 0x21,
            class: 4,
            bits_per_rgb_value: 8,
            colormap_entries: 256,
            red_mask: 0x00ff0000,
            green_mask: 0x0000ff00,
            blue_mask: 0x000000ff,
        },
    ]
    &&& server_info_units(i) <= 0xffff
}

} // verus!

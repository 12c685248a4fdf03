//! X11 Protocol Handshake Implementation
//!
//! This module implements the X11 connection setup handshake between client and server.

use vstd::prelude::*;
use crate::protocol::connection::text_bytes;
use crate::protocol::endianness::{
    decode_u16, le16, le32, lemma_u16_round_trip, pad_to, u16_at, zeros, EndianWriter,
};
use crate::protocol::error::{ProtocolError, ServerError, ServerResult};
use crate::protocol::request::copy_range;
use crate::protocol::types::ByteOrder;
use crate::protocol::utf8::{lossy_text, string_from_utf8_lossy};

verus! {

/// Display configuration for screen info
#[derive(Debug, Clone, Copy)]
pub struct DisplayConfig {
    pub width: u16,
    pub height: u16,
    pub width_mm: u16,
    pub height_mm: u16,
    pub depth: u8,
}

/// The configuration a display has when none is given: 1920x1080 at depth
/// 24, on a ~24" monitor at ~96 DPI (508 x 285 mm).
pub open spec fn default_display_config() -> DisplayConfig {
    DisplayConfig { width: 1920, height: 1080, width_mm: 508, height_mm: 285, depth: 24 }
}

impl Default for DisplayConfig {
    fn default() -> (r: Self)
        ensures
            r == default_display_config(),
    {
        Self {
            width: 1920,
            height: 1080,
            // 1920 / 96 * 25.4 and 1080 / 96 * 25.4, truncated
            width_mm: 508,
            height_mm: 285,
            depth: 24,
        }
    }
}

/// X11 Connection Setup Request
#[derive(Debug, Clone)]
pub struct ConnectionSetupRequest {
    /// Byte order: 0x42 (MSB first) or 0x6c (LSB first)
    pub byte_order: u8,
    /// Protocol major version (usually 11)
    pub protocol_major_version: u16,
    /// Protocol minor version (usually 0)
    pub protocol_minor_version: u16,
    /// Authorization protocol name (e.g., "MIT-MAGIC-COOKIE-1")
    pub authorization_protocol_name: String,
    /// Authorization protocol data
    pub authorization_protocol_data: Vec<u8>,
}

/// X11 Connection Setup Response Status
#[derive(Debug, Clone, Copy, PartialEq, Eq, Structural)]
pub enum SetupStatus {
    /// Connection successful
    Success,
    /// Connection failed
    Failed,
    /// Additional authentication required
    Authenticate,
}

/// X11 Connection Setup Response
#[derive(Debug, Clone)]
pub struct ConnectionSetupResponse {
    /// Response status
    pub status: SetupStatus,
    /// Response data (server info for success, reason for failure, auth data for authenticate)
    pub data: Vec<u8>,
}

/// X11 Server Information (for successful setup)
#[derive(Debug, Clone)]
pub struct ServerInfo {
    /// Protocol major version
    pub protocol_major_version: u16,
    /// Protocol minor version
    pub protocol_minor_version: u16,
    /// Release number
    pub release_number: u32,
    /// Resource ID base
    pub resource_id_base: u32,
    /// Resource ID mask
    pub resource_id_mask: u32,
    /// Motion buffer size
    pub motion_buffer_size: u32,
    /// Vendor string
    pub vendor: String,
    /// Maximum request length
    pub maximum_request_length: u16,
    /// Number of screens
    pub number_of_screens: u8,
    /// Number of formats
    pub number_of_formats: u8,
    /// Image byte order
    pub image_byte_order: u8,
    /// Bitmap format bit order
    pub bitmap_format_bit_order: u8,
    /// Bitmap format scanline unit
    pub bitmap_format_scanline_unit: u8,
    /// Bitmap format scanline pad
    pub bitmap_format_scanline_pad: u8,
    /// Minimum keycode
    pub min_keycode: u8,
    /// Maximum keycode
    pub max_keycode: u8,
    /// Screen information (simplified for now)
    pub screens: Vec<ScreenInfo>,
}

/// Screen Information
#[derive(Debug, Clone, Copy)]
pub struct ScreenInfo {
    /// Root window ID
    pub root: u32,
    /// Default colormap
    pub default_colormap: u32,
    /// White pixel value
    pub white_pixel: u32,
    /// Black pixel value
    pub black_pixel: u32,
    /// Current input masks
    pub current_input_masks: u32,
    /// Width in pixels
    pub width_in_pixels: u16,
    /// Height in pixels
    pub height_in_pixels: u16,
    /// Width in millimeters
    pub width_in_millimeters: u16,
    /// Height in millimeters
    pub height_in_millimeters: u16,
    /// Minimum installed maps
    pub min_installed_maps: u16,
    /// Maximum installed maps
    pub max_installed_maps: u16,
    /// Root visual
    pub root_visual: u32,
    /// Backing stores
    pub backing_stores: u8,
    /// Save unders
    pub save_unders: u8,
    /// Root depth
    pub root_depth: u8,
    /// Number of allowed depths
    pub allowed_depths_len: u8,
}

impl SetupStatus {
    /// The status byte on the wire.
    pub open spec fn spec_value(self) -> u8 {
        match self {
            SetupStatus::Success => 1,
            SetupStatus::Failed => 0,
            SetupStatus::Authenticate => 2,
        }
    }
}

// ---------------------------------------------------------------------------
// Parsing the client's setup request
// ---------------------------------------------------------------------------

/// The byte order a setup request's first byte selects: 0x42 is MSB first,
/// anything else is read LSB first.
pub open spec fn handshake_byte_order(first: u8) -> ByteOrder {
    if first == 0x42 {
        ByteOrder::BigEndian
    } else {
        ByteOrder::LittleEndian
    }
}

/// Where the authorization data starts: after the 12-byte header and the
/// name padded to 4 bytes.
pub open spec fn auth_data_offset(name_len: int) -> int {
    12 + (name_len + 3) / 4 * 4
}

/// Whether a setup request holds its header and all of the authorization
/// name and data its header announces.
pub open spec fn setup_request_complete(b: Seq<u8>) -> bool {
    b.len() >= 12 && {
        let o = handshake_byte_order(b[0]);
        let n = u16_at(b, 6, o) as int;
        let d = u16_at(b, 8, o) as int;
        &&& n > 0 ==> 12 + n <= b.len()
        &&& d > 0 ==> auth_data_offset(n) + d <= b.len()
    }
}

impl ConnectionSetupRequest {
    /// Parse a connection setup request from bytes
    pub fn parse(data: &[u8]) -> (r: ServerResult<Self>)
        ensures
            r is Ok <==> setup_request_complete(data@),
            r matches Err(e) ==> e matches ServerError::ProtocolError(
                ProtocolError::InvalidMessage(_),
            ),
            r matches Ok(req) ==> parsed_setup_request(data@, req),
    {
        if data.len() < 12 {
            return Err(
                ServerError::ProtocolError(
                    ProtocolError::InvalidMessage("Connection setup request too short".to_owned()),
                ),
            );
        }
        let byte_order = data[0];
        let order = if byte_order == 0x42 {
            ByteOrder::BigEndian
        } else {
            ByteOrder::LittleEndian
        };
        let protocol_major_version = decode_u16(data[2], data[3], order);
        let protocol_minor_version = decode_u16(data[4], data[5], order);
        let auth_name_len = decode_u16(data[6], data[7], order) as usize;
        let auth_data_len = decode_u16(data[8], data[9], order) as usize;
        let mut offset: usize = 12;
        let authorization_protocol_name = if auth_name_len > 0 {
            if data.len() - offset < auth_name_len {
                return Err(
                    ServerError::ProtocolError(
                        ProtocolError::InvalidMessage("Invalid auth name length".to_owned()),
                    ),
                );
            }
            let name = string_from_utf8_lossy(&data[offset..offset + auth_name_len]);
            offset = offset + auth_name_len;
            offset = offset + (4 - (auth_name_len % 4)) % 4;
            name
        } else {
            String::new()
        };
        assert(offset == auth_data_offset(auth_name_len as int));
        let authorization_protocol_data = if auth_data_len > 0 {
            if data.len() < offset || data.len() - offset < auth_data_len {
                return Err(
                    ServerError::ProtocolError(
                        ProtocolError::InvalidMessage("Invalid auth data length".to_owned()),
                    ),
                );
            }
            copy_range(data, offset, offset + auth_data_len)
        } else {
            Vec::new()
        };
        Ok(
            Self {
                byte_order,
                protocol_major_version,
                protocol_minor_version,
                authorization_protocol_name,
                authorization_protocol_data,
            },
        )
    }
}

// ---------------------------------------------------------------------------
// The server's reply
// ---------------------------------------------------------------------------

/// Number of 4-byte units that hold `n` bytes.
pub open spec fn units_of(n: nat) -> nat {
    (n + 3) / 4
}

/// `(len + 3) / 4` without overflowing.
fn units_for(len: usize) -> (u: usize)
    ensures
        u == units_of(len as nat),
{
    len / 4 + if len % 4 == 0 {
        0
    } else {
        1
    }
}

/// A failure reply's data: the reason's length byte, then the reason, the
/// whole padded with zeros to a multiple of 4.
pub open spec fn failed_data(reason: Seq<char>) -> Seq<u8> {
    let text = text_bytes(reason);
    seq![text.len() as u8] + text + zeros(pad_to(text.len() + 1, 4))
}

/// The reason a failure reply's data holds: as many bytes after the leading
/// length byte as that byte says (fewer where the data ends first).
pub open spec fn failed_reason_part(d: Seq<u8>) -> Seq<u8> {
    if d.len() == 0 {
        Seq::empty()
    } else if 1 + d[0] <= d.len() {
        d.subrange(1, 1 + d[0])
    } else {
        d.subrange(1, d.len() as int)
    }
}

/// The bytes of a setup reply with the given status and data.
pub open spec fn handshake_response_bytes(status: SetupStatus, d: Seq<u8>) -> Seq<u8> {
    match status {
        SetupStatus::Success => {
            let version = if d.len() >= 4 {
                d.subrange(0, 4)
            } else {
                le16(11) + le16(0)
            };
            let additional = if d.len() >= 4 {
                d.subrange(4, d.len() as int)
            } else {
                Seq::empty()
            };
            seq![1u8, 0u8] + version + le16(units_of(additional.len()) as u16) + additional
        },
        SetupStatus::Failed => {
            let reason = failed_reason_part(d);
            let body = seq![
                0u8,
                if d.len() > 0 {
                    d[0]
                } else {
                    0u8
                },
            ] + le16(11) + le16(0) + le16(units_of(reason.len()) as u16) + reason;
            body + zeros(pad_to(body.len(), 4))
        },
        SetupStatus::Authenticate => {
            let body = seq![2u8] + zeros(5) + le16(units_of(d.len()) as u16) + d;
            body + zeros(pad_to(body.len(), 4))
        },
    }
}

impl ConnectionSetupResponse {
    /// Create a successful setup response
    pub fn success(server_info: ServerInfo) -> (r: Self)
        ensures
            r.status == SetupStatus::Success,
            r.data@ == server_info_bytes(server_info),
    {
        let data = server_info.serialize();
        Self { status: SetupStatus::Success, data }
    }

    /// Create a failed setup response
    pub fn failed(reason: &str) -> (r: Self)
        ensures
            r.status == SetupStatus::Failed,
            r.data@ == failed_data(reason@),
    {
        let bytes = reason.as_bytes();
        let mut w = EndianWriter::new(Vec::new(), ByteOrder::LittleEndian);
        w.write_u8(bytes.len() as u8);
        w.write_bytes(bytes);
        // Pad the whole data, length byte included, to a 4-byte boundary
        let len = w.len();
        w.write_padding((4 - (len % 4)) % 4);
        let data = w.into_buffer();
        assert(data@ =~= failed_data(reason@));
        Self { status: SetupStatus::Failed, data }
    }

    /// Serialize the response to bytes
    pub fn serialize(&self) -> (r: Vec<u8>)
        ensures
            r@ == handshake_response_bytes(self.status, self.data@),
    {
        let mut w = EndianWriter::new(Vec::new(), ByteOrder::LittleEndian);
        let d = self.data.as_slice();
        match self.status {
            SetupStatus::Success => {
                w.write_u8(1);
                w.write_u8(0);
                if d.len() >= 4 {
                    w.write_bytes(&d[0..4]);
                } else {
                    w.write_u16(11);
                    w.write_u16(0);
                }
                let additional: &[u8] = if d.len() >= 4 {
                    &d[4..d.len()]
                } else {
                    &[]
                };
                let length_in_units = units_for(additional.len()) as u16;
                w.write_u16(length_in_units);
                w.write_bytes(additional);
            },
            SetupStatus::Failed => {
                w.write_u8(0);
                let reason_len = if d.len() > 0 {
                    d[0]
                } else {
                    0
                };
                w.write_u8(reason_len);
                w.write_u16(11);
                w.write_u16(0);
                // The reason itself: the bytes after the length byte that it counts
                let reason: &[u8] = if d.len() == 0 {
                    &[]
                } else if 1 + (reason_len as usize) <= d.len() {
                    &d[1..1 + reason_len as usize]
                } else {
                    &d[1..d.len()]
                };
                let padded_len = units_for(reason.len()) as u16;
                w.write_u16(padded_len);
                w.write_bytes(reason);
                let len = w.len();
                w.write_padding((4 - (len % 4)) % 4);
            },
            SetupStatus::Authenticate => {
                w.write_u8(2);
                w.write_padding(5);
                let padded_len = units_for(d.len()) as u16;
                w.write_u16(padded_len);
                w.write_bytes(d);
                let len = w.len();
                w.write_padding((4 - (len % 4)) % 4);
            },
        }
        let bytes = w.into_buffer();
        assert(bytes@ =~= handshake_response_bytes(self.status, self.data@));
        bytes
    }
}

// ---------------------------------------------------------------------------
// Server and screen information
// ---------------------------------------------------------------------------

/// One FORMAT as this server announces it: depth 24, 32 bits per pixel,
/// scanline pad 32, five unused bytes.
pub open spec fn format_bytes() -> Seq<u8> {
    seq![24u8, 32u8, 32u8] + zeros(5)
}

/// `n` FORMATs.
pub open spec fn formats_bytes(n: nat) -> Seq<u8>
    decreases n,
{
    if n == 0 {
        Seq::empty()
    } else {
        formats_bytes((n - 1) as nat) + format_bytes()
    }
}

/// The DEPTH at position `index` of a screen: the root depth first, 24 after,
/// each with one TrueColor visual (the root visual).
pub open spec fn screen_depth_bytes(s: ScreenInfo, index: nat) -> Seq<u8> {
    seq![
        if index == 0 {
            s.root_depth
        } else {
            24u8
        },
        0u8,
    ] + le16(1) + zeros(4) + le32(s.root_visual) + seq![4u8, 8u8] + le16(256) + le32(0x00ff0000)
        + le32(0x0000ff00) + le32(0x000000ff) + zeros(4)
}

/// The first `n` DEPTHs of a screen.
pub open spec fn screen_depths_bytes(s: ScreenInfo, n: nat) -> Seq<u8>
    decreases n,
{
    if n == 0 {
        Seq::empty()
    } else {
        screen_depths_bytes(s, (n - 1) as nat) + screen_depth_bytes(s, (n - 1) as nat)
    }
}

/// A SCREEN: its 40 fixed bytes, then `allowed_depths_len` DEPTHs.
pub open spec fn screen_bytes(s: ScreenInfo) -> Seq<u8> {
    le32(s.root) + le32(s.default_colormap) + le32(s.white_pixel) + le32(s.black_pixel) + le32(
        s.current_input_masks,
    ) + le16(s.width_in_pixels) + le16(s.height_in_pixels) + le16(s.width_in_millimeters) + le16(
        s.height_in_millimeters,
    ) + le16(s.min_installed_maps) + le16(s.max_installed_maps) + le32(s.root_visual) + seq![
        s.backing_stores,
        s.save_unders,
        s.root_depth,
        s.allowed_depths_len,
    ] + screen_depths_bytes(s, s.allowed_depths_len as nat)
}

/// The SCREENs, in order.
pub open spec fn screens_bytes(ss: Seq<ScreenInfo>) -> Seq<u8>
    decreases ss.len(),
{
    if ss.len() == 0 {
        Seq::empty()
    } else {
        screens_bytes(ss.drop_last()) + screen_bytes(ss.last())
    }
}

/// The serialized server information: the protocol version, then the
/// additional data of a success reply.
pub open spec fn server_info_bytes(i: ServerInfo) -> Seq<u8> {
    let vendor = text_bytes(i.vendor@);
    le16(i.protocol_major_version) + le16(i.protocol_minor_version) + le32(i.release_number)
        + le32(i.resource_id_base) + le32(i.resource_id_mask) + le32(i.motion_buffer_size) + le16(
        vendor.len() as u16,
    ) + le16(i.maximum_request_length) + seq![
        i.number_of_screens,
        i.number_of_formats,
        i.image_byte_order,
        i.bitmap_format_bit_order,
        i.bitmap_format_scanline_unit,
        i.bitmap_format_scanline_pad,
        i.min_keycode,
        i.max_keycode,
    ] + zeros(4) + vendor + zeros(pad_to(vendor.len(), 4)) + formats_bytes(
        i.number_of_formats as nat,
    ) + screens_bytes(i.screens@)
}

/// The size a SCREEN takes: 40 bytes and 32 per depth.
pub open spec fn screen_size(s: ScreenInfo) -> nat {
    40 + 32 * (s.allowed_depths_len as nat)
}

/// The screen a display configuration describes.
pub open spec fn display_screen(s: ScreenInfo, c: DisplayConfig) -> bool {
    s == ScreenInfo {
        root: 1,
        default_colormap: 1,
        white_pixel: 0xffffff,
        black_pixel: 0x000000,
        current_input_masks: 0,
        width_in_pixels: c.width,
        height_in_pixels: c.height,
        width_in_millimeters: c.width_mm,
        height_in_millimeters: c.height_mm,
        min_installed_maps: 1,
        max_installed_maps: 1,
        root_visual: 1,
        backing_stores: 0,
        save_unders: 0,
        root_depth: c.depth,
        allowed_depths_len: 1,
    }
}

/// The server information a display configuration describes.
pub open spec fn display_server_info(i: ServerInfo, c: DisplayConfig) -> bool {
    &&& i.protocol_major_version == 11
    &&& i.protocol_minor_version == 0
    &&& i.release_number == 12000000
    &&& i.resource_id_base == 0x00400000
    &&& i.resource_id_mask == 0x003fffff
    &&& i.motion_buffer_size == 256
    &&& i.vendor@ == "RXServer"@
    &&& i.maximum_request_length == 65535
    &&& i.number_of_screens == 1
    &&& i.number_of_formats == 1
    &&& i.image_byte_order == 0
    &&& i.bitmap_format_bit_order == 0
    &&& i.bitmap_format_scanline_unit == 32
    &&& i.bitmap_format_scanline_pad == 32
    &&& i.min_keycode == 8
    &&& i.max_keycode == 255
    &&& i.screens@.len() == 1
    &&& display_screen(i.screens@[0], c)
}

impl ServerInfo {
    /// Create server info from display configuration
    pub fn from_display_config(display_config: &DisplayConfig) -> (r: Self)
        ensures
            display_server_info(r, *display_config),
    {
        let screens = vec![ScreenInfo::from_display_config(display_config)];
        Self {
            protocol_major_version: 11,
            protocol_minor_version: 0,
            release_number: 12000000,
            resource_id_base: 0x00400000,
            resource_id_mask: 0x003fffff,
            motion_buffer_size: 256,
            vendor: "RXServer".to_owned(),
            maximum_request_length: 65535,
            number_of_screens: 1,
            number_of_formats: 1,
            image_byte_order: 0,
            bitmap_format_bit_order: 0,
            bitmap_format_scanline_unit: 32,
            bitmap_format_scanline_pad: 32,
            min_keycode: 8,
            max_keycode: 255,
            screens,
        }
    }

    /// Create default server info
    pub fn default() -> (r: Self)
        ensures
            display_server_info(r, default_display_config()),
    {
        Self::from_display_config(&DisplayConfig::default())
    }

    /// Serialize server info to bytes according to X11 specification
    #[verifier::rlimit(40)]
    pub fn serialize(&self) -> (r: Vec<u8>)
        ensures
            r@ == server_info_bytes(*self),
    {
        let mut w = EndianWriter::new(Vec::new(), ByteOrder::LittleEndian);
        w.write_u16(self.protocol_major_version);
        w.write_u16(self.protocol_minor_version);
        let vendor_bytes = self.vendor.as_str().as_bytes();
        assert(vendor_bytes@ == text_bytes(self.vendor@));
        w.write_u32(self.release_number);
        w.write_u32(self.resource_id_base);
        w.write_u32(self.resource_id_mask);
        w.write_u32(self.motion_buffer_size);
        w.write_u16(vendor_bytes.len() as u16);
        w.write_u16(self.maximum_request_length);
        w.write_u8(self.number_of_screens);
        w.write_u8(self.number_of_formats);
        w.write_u8(self.image_byte_order);
        w.write_u8(self.bitmap_format_bit_order);
        w.write_u8(self.bitmap_format_scanline_unit);
        w.write_u8(self.bitmap_format_scanline_pad);
        w.write_u8(self.min_keycode);
        w.write_u8(self.max_keycode);
        w.write_padding(4);
        w.write_bytes(vendor_bytes);
        w.write_padding((4 - (vendor_bytes.len() % 4)) % 4);
        let ghost head = w.contents();
        let mut k: u8 = 0;
        while k < self.number_of_formats
            invariant
                k <= self.number_of_formats,
                w.order() == ByteOrder::LittleEndian,
                w.contents() == head + formats_bytes(k as nat),
            decreases self.number_of_formats - k,
        {
            w.write_u8(24);
            w.write_u8(32);
            w.write_u8(32);
            w.write_padding(5);
            k = k + 1;
            assert(w.contents() =~= head + formats_bytes(k as nat));
        }
        let ghost mid = w.contents();
        let mut i: usize = 0;
        while i < self.screens.len()
            invariant
                i <= self.screens@.len(),
                w.order() == ByteOrder::LittleEndian,
                w.contents() == mid + screens_bytes(self.screens@.take(i as int)),
            decreases self.screens@.len() - i,
        {
            proof {
                assert(self.screens@.take(i + 1).drop_last() =~= self.screens@.take(i as int));
            }
            let screen_data = self.screens[i].serialize();
            w.write_bytes(screen_data.as_slice());
            proof {
                assert(screens_bytes(self.screens@.take(i + 1)) == screens_bytes(
                    self.screens@.take(i as int),
                ) + screen_bytes(self.screens@[i as int]));
            }
            i = i + 1;
            assert(w.contents() =~= mid + screens_bytes(self.screens@.take(i as int)));
        }
        assert(self.screens@.take(i as int) =~= self.screens@);
        let bytes = w.into_buffer();
        assert(bytes@ =~= server_info_bytes(*self));
        bytes
    }
}

impl ScreenInfo {
    /// Create screen info from display configuration
    pub fn from_display_config(display_config: &DisplayConfig) -> (r: Self)
        ensures
            display_screen(r, *display_config),
    {
        Self {
            root: 1,
            default_colormap: 1,
            white_pixel: 0xffffff,
            black_pixel: 0x000000,
            current_input_masks: 0,
            width_in_pixels: display_config.width,
            height_in_pixels: display_config.height,
            width_in_millimeters: display_config.width_mm,
            height_in_millimeters: display_config.height_mm,
            min_installed_maps: 1,
            max_installed_maps: 1,
            root_visual: 1,
            backing_stores: 0,
            save_unders: 0,
            root_depth: display_config.depth,
            allowed_depths_len: 1,
        }
    }

    /// Create default screen info
    pub fn default() -> (r: Self)
        ensures
            r == (ScreenInfo {
                root: 1,
                default_colormap: 1,
                white_pixel: 0xffffff,
                black_pixel: 0x000000,
                current_input_masks: 0,
                width_in_pixels: 1920,
                height_in_pixels: 1080,
                width_in_millimeters: 508,
                height_in_millimeters: 286,
                min_installed_maps: 1,
                max_installed_maps: 1,
                root_visual: 1,
                backing_stores: 0,
                save_unders: 0,
                root_depth: 24,
                allowed_depths_len: 1,
            }),
    {
        Self {
            root: 1,
            default_colormap: 1,
            white_pixel: 0xffffff,
            black_pixel: 0x000000,
            current_input_masks: 0,
            width_in_pixels: 1920,
            height_in_pixels: 1080,
            width_in_millimeters: 508,
            height_in_millimeters: 286,
            min_installed_maps: 1,
            max_installed_maps: 1,
            root_visual: 1,
            backing_stores: 0,
            save_unders: 0,
            root_depth: 24,
            allowed_depths_len: 1,
        }
    }

    /// Calculate the byte size of this screen info when serialized
    pub fn byte_size(&self) -> (n: usize)
        ensures
            n == screen_size(*self),
    {
        let base_size: usize = 40;
        let depth_size: usize = if self.allowed_depths_len > 0 {
            // each DEPTH: 8 bytes and one 24-byte visual
            let depths = self.allowed_depths_len as usize;
            assert(depths * 32 <= 255 * 32) by (nonlinear_arith)
                requires
                    depths <= 255,
            ;
            depths * 32
        } else {
            0
        };
        base_size + depth_size
    }

    /// Serialize screen info to bytes according to X11 specification
    pub fn serialize(&self) -> (r: Vec<u8>)
        ensures
            r@ == screen_bytes(*self),
    {
        let mut w = EndianWriter::new(Vec::new(), ByteOrder::LittleEndian);
        w.write_u32(self.root);
        w.write_u32(self.default_colormap);
        w.write_u32(self.white_pixel);
        w.write_u32(self.black_pixel);
        w.write_u32(self.current_input_masks);
        w.write_u16(self.width_in_pixels);
        w.write_u16(self.height_in_pixels);
        w.write_u16(self.width_in_millimeters);
        w.write_u16(self.height_in_millimeters);
        w.write_u16(self.min_installed_maps);
        w.write_u16(self.max_installed_maps);
        w.write_u32(self.root_visual);
        w.write_u8(self.backing_stores);
        w.write_u8(self.save_unders);
        w.write_u8(self.root_depth);
        w.write_u8(self.allowed_depths_len);
        let ghost head = w.contents();
        let mut depth_index: u8 = 0;
        while depth_index < self.allowed_depths_len
            invariant
                depth_index <= self.allowed_depths_len,
                w.order() == ByteOrder::LittleEndian,
                w.contents() == head + screen_depths_bytes(*self, depth_index as nat),
            decreases self.allowed_depths_len - depth_index,
        {
            w.write_u8(
                if depth_index == 0 {
                    self.root_depth
                } else {
                    24
                },
            );
            w.write_u8(0);
            w.write_u16(1);
            w.write_padding(4);
            w.write_u32(self.root_visual);
            w.write_u8(4);
            w.write_u8(8);
            w.write_u16(256);
            w.write_u32(0x00ff0000);
            w.write_u32(0x0000ff00);
            w.write_u32(0x000000ff);
            w.write_padding(4);
            depth_index = depth_index + 1;
            assert(w.contents() =~= head + screen_depths_bytes(*self, depth_index as nat));
        }
        let bytes = w.into_buffer();
        assert(bytes@ =~= screen_bytes(*self));
        bytes
    }
}

proof fn lemma_screen_depths_len(s: ScreenInfo, n: nat)
    ensures
        screen_depths_bytes(s, n).len() == 32 * n,
    decreases n,
{
    if n > 0 {
        lemma_screen_depths_len(s, (n - 1) as nat);
    }
}

/// A serialized SCREEN takes exactly the size `byte_size` reports.
pub proof fn lemma_screen_size_matches(s: ScreenInfo)
    ensures
        screen_bytes(s).len() == screen_size(s),
{
    lemma_screen_depths_len(s, s.allowed_depths_len as nat);
}

proof fn lemma_formats_len(n: nat)
    ensures
        formats_bytes(n).len() == 8 * n,
    decreases n,
{
    if n > 0 {
        lemma_formats_len((n - 1) as nat);
    }
}

proof fn lemma_screens_len(ss: Seq<ScreenInfo>)
    ensures
        screens_bytes(ss).len() % 4 == 0,
    decreases ss.len(),
{
    if ss.len() > 0 {
        lemma_screens_len(ss.drop_last());
        lemma_screen_size_matches(ss.last());
        let a = screens_bytes(ss.drop_last()).len();
        let b = screen_bytes(ss.last()).len();
        assert(screens_bytes(ss).len() == a + b);
        assert(b % 4 == 0);
        assert((a + b) % 4 == 0) by (nonlinear_arith)
            requires
                a % 4 == 0,
                b % 4 == 0,
        ;
    }
}

proof fn lemma_server_info_len(i: ServerInfo)
    ensures
        server_info_bytes(i).len() == 36 + text_bytes(i.vendor@).len() + pad_to(
            text_bytes(i.vendor@).len(),
            4,
        ) + 8 * i.number_of_formats + screens_bytes(i.screens@).len(),
{
    lemma_formats_len(i.number_of_formats as nat);
}

proof fn lemma_server_info_units(i: ServerInfo)
    ensures
        server_info_bytes(i).len() >= 4,
        (server_info_bytes(i).len() - 4) % 4 == 0,
{
    lemma_server_info_len(i);
    lemma_screens_len(i.screens@);
    lemma_whole_units(
        text_bytes(i.vendor@).len(),
        i.number_of_formats as nat,
        screens_bytes(i.screens@).len(),
    );
}

proof fn lemma_whole_units(v: nat, formats: nat, screens: nat)
    requires
        screens % 4 == 0,
    ensures
        (32 + v + pad_to(v, 4) + 8 * formats + screens) % 4 == 0,
{
    let r = v % 4;
    assert(v == 4 * (v / 4) + r);
}

proof fn lemma_success_reply_len(d: Seq<u8>)
    requires
        d.len() >= 4,
        (d.len() - 4) % 4 == 0,
    ensures
        handshake_response_bytes(SetupStatus::Success, d).len() == 8 + 4 * units_of(
            (d.len() - 4) as nat,
        ),
{
    let n = (d.len() - 4) as nat;
    assert(4 * units_of(n) == n);
}

/// A success reply's length field counts exactly the bytes that follow its
/// 8-byte header: the server information always fills whole 4-byte units.
pub proof fn lemma_success_reply_length(i: ServerInfo)
    ensures
        server_info_bytes(i).len() >= 4,
        (server_info_bytes(i).len() - 4) % 4 == 0,
        handshake_response_bytes(SetupStatus::Success, server_info_bytes(i)).len() == 8 + 4
            * units_of((server_info_bytes(i).len() - 4) as nat),
{
    lemma_server_info_units(i);
    lemma_success_reply_len(server_info_bytes(i));
}

// ---------------------------------------------------------------------------
// The handshake's decisions
// ---------------------------------------------------------------------------

/// The decimal digits of `n`.
pub open spec fn decimal(n: nat) -> Seq<char>
    decreases n,
{
    if n < 10 {
        seq![(48 + n) as char]
    } else {
        decimal(n / 10).push((48 + n % 10) as char)
    }
}

/// The reason a failure reply gives for a protocol version other than 11.
pub open spec fn unsupported_version_text(major: u16, minor: u16) -> Seq<char> {
    "Unsupported protocol version "@ + decimal(major as nat) + "."@ + decimal(minor as nat)
}

/// The message of the error for a setup request shorter than 12 bytes.
pub open spec fn too_short_text(n: usize) -> Seq<char> {
    "Connection setup request too short: "@ + decimal(n as nat) + " bytes"@
}

/// `format!` of the two version numbers into the failure reason. `Display` for
/// an integer writes its decimal digits.
#[verifier::external_body]
fn unsupported_version_reason(major: u16, minor: u16) -> (s: String)
    ensures
        s@ == unsupported_version_text(major, minor),
{
    format!("Unsupported protocol version {}.{}", major, minor)
}

/// `format!` of a byte count into the short-request error message. `Display`
/// for an integer writes its decimal digits.
#[verifier::external_body]
fn too_short_message(n: usize) -> (s: String)
    ensures
        s@ == too_short_text(n),
{
    format!("Connection setup request too short: {} bytes", n)
}

/// What a client's setup request parses to.
pub open spec fn parsed_setup_request(b: Seq<u8>, req: ConnectionSetupRequest) -> bool {
    let o = handshake_byte_order(b[0]);
    let n = u16_at(b, 6, o) as int;
    let d = u16_at(b, 8, o) as int;
    &&& req.byte_order == b[0]
    &&& req.protocol_major_version == u16_at(b, 2, o)
    &&& req.protocol_minor_version == u16_at(b, 4, o)
    &&& req.authorization_protocol_name@ == lossy_text(b.subrange(12, 12 + n))
    &&& req.authorization_protocol_data@ == if d > 0 {
        b.subrange(auth_data_offset(n), auth_data_offset(n) + d)
    } else {
        Seq::empty()
    }
}

/// The configuration a handshake describes the display with.
pub open spec fn effective_config(c: Option<&DisplayConfig>) -> DisplayConfig {
    match c {
        Some(c) => *c,
        None => default_display_config(),
    }
}

/// What the server does with a client's setup request.
pub enum HandshakeOutcome {
    /// The version is supported: send `reply`, then serve the client.
    Accepted { request: ConnectionSetupRequest, reply: Vec<u8> },
    /// The version is not supported: send `reply`, then end with `error`.
    Refused { reply: Vec<u8>, error: ServerError },
}

/// The decisions of the X11 handshake on the bytes a client sent first: the
/// request is parsed, a version other than 11 is refused with a failure
/// reply, and any other request is accepted with the server's information
/// for `display_config` (the default display when there is none). Any
/// authorization the client offers is accepted.
pub fn process_handshake(input: &[u8], display_config: Option<&DisplayConfig>) -> (r: ServerResult<
    HandshakeOutcome,
>)
    ensures
        input@.len() < 12 ==> (r matches Err(
            ServerError::ProtocolError(ProtocolError::InvalidMessage(m)),
        ) && m@ == too_short_text(input.len())),
        input@.len() >= 12 ==> (r is Err <==> !setup_request_complete(input@)),
        r matches Err(e) ==> e matches ServerError::ProtocolError(
            ProtocolError::InvalidMessage(_),
        ),
        r matches Ok(outcome) ==> {
            let major = u16_at(input@, 2, handshake_byte_order(input@[0]));
            let minor = u16_at(input@, 4, handshake_byte_order(input@[0]));
            &&& input@.len() >= 12
            &&& outcome is Accepted <==> major == 11
            &&& outcome matches HandshakeOutcome::Accepted { request, reply } ==> {
                &&& parsed_setup_request(input@, request)
                &&& exists|i: ServerInfo|
                    display_server_info(i, effective_config(display_config)) && reply@
                        == handshake_response_bytes(SetupStatus::Success, server_info_bytes(i))
            }
            &&& outcome matches HandshakeOutcome::Refused { reply, error } ==> {
                &&& reply@ == handshake_response_bytes(
                    SetupStatus::Failed,
                    failed_data(unsupported_version_text(major, minor)),
                )
                &&& error == ServerError::ProtocolError(
                    ProtocolError::UnsupportedProtocolVersion(major, minor),
                )
            }
        },
{
    if input.len() < 12 {
        return Err(ServerError::ProtocolError(ProtocolError::InvalidMessage(too_short_message(input.len()))));
    }
    let setup_request = match ConnectionSetupRequest::parse(input) {
        Ok(req) => req,
        Err(e) => return Err(e),
    };
    if setup_request.protocol_major_version != 11 {
        let reason = unsupported_version_reason(
            setup_request.protocol_major_version,
            setup_request.protocol_minor_version,
        );
        let response = ConnectionSetupResponse::failed(reason.as_str());
        let reply = response.serialize();
        return Ok(
            HandshakeOutcome::Refused {
                reply,
                error: ServerError::ProtocolError(
                    ProtocolError::UnsupportedProtocolVersion(
                        setup_request.protocol_major_version,
                        setup_request.protocol_minor_version,
                    ),
                ),
            },
        );
    }
    let server_info = match display_config {
        Some(config) => ServerInfo::from_display_config(config),
        None => ServerInfo::default(),
    };
    let ghost info = server_info;
    let response = ConnectionSetupResponse::success(server_info);
    let reply = response.serialize();
    assert(display_server_info(info, effective_config(display_config)));
    assert(reply@ == handshake_response_bytes(SetupStatus::Success, server_info_bytes(info)));
    Ok(HandshakeOutcome::Accepted { request: setup_request, reply })
}

/// A failure reply made from a reason holds the reason's length in its
/// second byte, the reason itself right after the 8-byte header, and as many
/// 4-byte units after the header as its length field says.
pub proof fn lemma_failure_reply_layout(reason: Seq<char>)
    requires
        text_bytes(reason).len() < 256,
    ensures
        ({
            let text = text_bytes(reason);
            let b = handshake_response_bytes(SetupStatus::Failed, failed_data(reason));
            &&& b[0] == 0
            &&& b[1] == text.len()
            &&& b.len() == 8 + 4 * u16_at(b, 6, ByteOrder::LittleEndian)
            &&& b.subrange(8, 8 + text.len() as int) == text
        }),
{
    let text = text_bytes(reason);
    let n = text.len();
    let d = failed_data(reason);
    assert(d[0] == n);
    assert(d.subrange(1, 1 + n as int) =~= text);
    let rest = failed_reason_part(d);
    assert(rest == text);
    let p = pad_to(n, 4);
    assert((n + p) % 4 == 0 && units_of(n) == (n + p) / 4 && (n + p) / 4 < 0x10000
        && pad_to(8 + n, 4) == p) by (nonlinear_arith)
        requires
            p == ((4 - (n % 4) as int) % 4 as int) as nat,
            n < 256,
    ;
    let units = units_of(n) as u16;
    let body = seq![0u8, d[0]] + le16(11) + le16(0) + le16(units) + rest;
    let b = handshake_response_bytes(SetupStatus::Failed, d);
    assert(b =~= body + zeros(p));
    lemma_u16_round_trip(units, ByteOrder::LittleEndian);
    assert(b[6] == le16(units)[0] && b[7] == le16(units)[1]);
    assert(b.subrange(8, 8 + n as int) =~= text);
}

/// The screen a display configuration describes is as wide and as high, in
/// pixels and in millimetres, and as deep as the configuration says, and its
/// SCREEN on the wire carries the width at bytes 20..22, the height at
/// 22..24, the millimetre sizes at 24..28 and the depth at byte 38.
pub proof fn lemma_display_screen_dimensions(s: ScreenInfo, c: DisplayConfig)
    requires
        display_screen(s, c),
    ensures
        s.width_in_pixels == c.width,
        s.height_in_pixels == c.height,
        s.width_in_millimeters == c.width_mm,
        s.height_in_millimeters == c.height_mm,
        s.root_depth == c.depth,
        u16_at(screen_bytes(s), 20, ByteOrder::LittleEndian) == c.width,
        u16_at(screen_bytes(s), 22, ByteOrder::LittleEndian) == c.height,
        u16_at(screen_bytes(s), 24, ByteOrder::LittleEndian) == c.width_mm,
        u16_at(screen_bytes(s), 26, ByteOrder::LittleEndian) == c.height_mm,
        screen_bytes(s)[38] == c.depth,
{
    let b = screen_bytes(s);
    lemma_u16_round_trip(c.width, ByteOrder::LittleEndian);
    lemma_u16_round_trip(c.height, ByteOrder::LittleEndian);
    lemma_u16_round_trip(c.width_mm, ByteOrder::LittleEndian);
    lemma_u16_round_trip(c.height_mm, ByteOrder::LittleEndian);
    assert(b.subrange(20, 22) =~= le16(c.width));
    assert(b.subrange(22, 24) =~= le16(c.height));
    assert(b.subrange(24, 26) =~= le16(c.width_mm));
    assert(b.subrange(26, 28) =~= le16(c.height_mm));
    assert(b[20] == b.subrange(20, 22)[0] && b[21] == b.subrange(20, 22)[1]);
    assert(b[22] == b.subrange(22, 24)[0] && b[23] == b.subrange(22, 24)[1]);
    assert(b[24] == b.subrange(24, 26)[0] && b[25] == b.subrange(24, 26)[1]);
    assert(b[26] == b.subrange(26, 28)[0] && b[27] == b.subrange(26, 28)[1]);
}

/// The server information a display configuration describes has one
/// screen, of the configuration's size and depth.
pub proof fn lemma_display_server_info_screen(i: ServerInfo, c: DisplayConfig)
    requires
        display_server_info(i, c),
    ensures
        i.screens@.len() == 1,
        i.screens@[0].width_in_pixels == c.width,
        i.screens@[0].height_in_pixels == c.height,
        i.screens@[0].root_depth == c.depth,
{
    lemma_display_screen_dimensions(i.screens@[0], c);
}

} // verus!

//! X11 Protocol Request Handling
//!
//! The client requests this parser knows, each as a struct, and the parser
//! that reads them from a request's bytes.

use vstd::prelude::*;
use bytes::Bytes;
use crate::protocol::buffers::{buffer_limit, bytes_contents, bytes_copy_from_slice};
use crate::protocol::endianness::{decode_u16, decode_u32, u16_at, u32_at};
use crate::protocol::handshake::decimal;
use crate::protocol::opcodes::atom::INTERN_ATOM;
use crate::protocol::opcodes::cursor::CREATE_GLYPH_CURSOR;
use crate::protocol::opcodes::graphics::CLEAR_AREA;
use crate::protocol::opcodes::input::GRAB_POINTER;
use crate::protocol::opcodes::text::OPEN_FONT;
use crate::protocol::opcodes::window::{CREATE_WINDOW, MAP_WINDOW, UNMAP_WINDOW};
use crate::protocol::types::{
    ByteOrder, Colormap, Cursor, Drawable, EventMask, Font, GContext, Gravity, Pixmap, Result,
    VisualId, Window, WindowClass, X11Error,
};
use crate::protocol::utf8::string_from_utf8;

verus! {

/// X11 protocol request header
#[derive(Debug, Clone, PartialEq, Eq, Structural)]
pub struct RequestHeader {
    pub opcode: u8,
    pub minor_opcode: u8,
    pub length: u16,
}

/// The window attribute bits of a CreateWindow or ChangeWindowAttributes value mask.
#[derive(Debug, Clone, Copy, PartialEq, Eq, Structural)]
pub struct WindowAttributesMask {
    pub bits: u32,
}

/// The fifteen window attribute bits, from background-pixmap to cursor.
pub const WINDOW_ATTRIBUTES_ALL: u32 = 0x7fff;

impl WindowAttributesMask {
    /// The mask with the bits of `bits` that name a window attribute; others are dropped.
    pub fn from_bits_truncate(bits: u32) -> (m: Self)
        ensures
            m.bits == bits & WINDOW_ATTRIBUTES_ALL,
    {
        Self { bits: bits & WINDOW_ATTRIBUTES_ALL }
    }
}

/// All possible X11 requests
#[derive(Debug, Clone)]
pub enum Request {
    CreateWindow(CreateWindowRequest),
    ChangeWindowAttributes(ChangeWindowAttributesRequest),
    GetWindowAttributes(GetWindowAttributesRequest),
    DestroyWindow(DestroyWindowRequest),
    MapWindow(MapWindowRequest),
    UnmapWindow(UnmapWindowRequest),
    ConfigureWindow(ConfigureWindowRequest),
    CreateGC(CreateGCRequest),
    ClearArea(ClearAreaRequest),
    CopyArea(CopyAreaRequest),
    InternAtom(InternAtomRequest),
    OpenFont(OpenFontRequest),
    CreateGlyphCursor(CreateGlyphCursorRequest),
    GrabPointer(GrabPointerRequest),
    /// Unknown request for unimplemented opcodes
    Unknown { opcode: u8, data: Bytes },
}

/// Create Window request
#[derive(Debug, Clone)]
pub struct CreateWindowRequest {
    pub depth: u8,
    pub wid: Window,
    pub parent: Window,
    pub x: i16,
    pub y: i16,
    pub width: u16,
    pub height: u16,
    pub border_width: u16,
    pub class: WindowClass,
    pub visual: VisualId,
    pub value_mask: WindowAttributesMask,
    pub value_list: WindowAttributes,
}

/// Window attributes for CreateWindow
#[derive(Debug, Clone)]
pub struct WindowAttributes {
    pub background_pixmap: Option<Pixmap>,
    pub background_pixel: Option<u32>,
    pub border_pixmap: Option<Pixmap>,
    pub border_pixel: Option<u32>,
    pub bit_gravity: Option<Gravity>,
    pub win_gravity: Option<Gravity>,
    pub backing_store: Option<u8>,
    pub backing_planes: Option<u32>,
    pub backing_pixel: Option<u32>,
    pub override_redirect: Option<bool>,
    pub save_under: Option<bool>,
    pub event_mask: Option<EventMask>,
    pub do_not_propagate_mask: Option<EventMask>,
    pub colormap: Option<Colormap>,
    pub cursor: Option<Cursor>,
}

/// Whether no attribute is set.
pub open spec fn no_attributes(a: WindowAttributes) -> bool {
    &&& a.background_pixmap is None
    &&& a.background_pixel is None
    &&& a.border_pixmap is None
    &&& a.border_pixel is None
    &&& a.bit_gravity is None
    &&& a.win_gravity is None
    &&& a.backing_store is None
    &&& a.backing_planes is None
    &&& a.backing_pixel is None
    &&& a.override_redirect is None
    &&& a.save_under is None
    &&& a.event_mask is None
    &&& a.do_not_propagate_mask is None
    &&& a.colormap is None
    &&& a.cursor is None
}

impl Default for WindowAttributes {
    fn default() -> (r: Self)
        ensures
            no_attributes(r),
    {
        WindowAttributes {
            background_pixmap: None,
            background_pixel: None,
            border_pixmap: None,
            border_pixel: None,
            bit_gravity: None,
            win_gravity: None,
            backing_store: None,
            backing_planes: None,
            backing_pixel: None,
            override_redirect: None,
            save_under: None,
            event_mask: None,
            do_not_propagate_mask: None,
            colormap: None,
            cursor: None,
        }
    }
}

/// Change Window Attributes request
#[derive(Debug, Clone)]
pub struct ChangeWindowAttributesRequest {
    pub window: Window,
    pub value_mask: WindowAttributesMask,
    pub value_list: WindowAttributes,
}

/// Get Window Attributes request
#[derive(Debug, Clone)]
pub struct GetWindowAttributesRequest {
    pub window: Window,
}

/// Destroy Window request
#[derive(Debug, Clone)]
pub struct DestroyWindowRequest {
    pub window: Window,
}

/// Map Window request
#[derive(Debug, Clone)]
pub struct MapWindowRequest {
    pub window: Window,
}

/// Unmap Window request
#[derive(Debug, Clone)]
pub struct UnmapWindowRequest {
    pub window: Window,
}

/// Configure Window request
#[derive(Debug, Clone)]
pub struct ConfigureWindowRequest {
    pub window: Window,
    pub value_mask: u16,
    pub x: Option<i16>,
    pub y: Option<i16>,
    pub width: Option<u16>,
    pub height: Option<u16>,
    pub border_width: Option<u16>,
    pub sibling: Option<Window>,
    pub stack_mode: Option<u8>,
}

/// Create Graphics Context request
#[derive(Debug, Clone)]
pub struct CreateGCRequest {
    pub cid: GContext,
    pub drawable: Drawable,
    pub value_mask: u32,
    pub value_list: Vec<u32>,
}

/// Clear Area request
#[derive(Debug, Clone)]
pub struct ClearAreaRequest {
    pub exposures: bool,
    pub window: Window,
    pub x: i16,
    pub y: i16,
    pub width: u16,
    pub height: u16,
}

/// Copy Area request
#[derive(Debug, Clone)]
pub struct CopyAreaRequest {
    pub src_drawable: Drawable,
    pub dst_drawable: Drawable,
    pub gc: GContext,
    pub src_x: i16,
    pub src_y: i16,
    pub dst_x: i16,
    pub dst_y: i16,
    pub width: u16,
    pub height: u16,
}

/// InternAtom request
#[derive(Debug, Clone)]
pub struct InternAtomRequest {
    pub only_if_exists: bool,
    pub name: String,
}

/// OpenFont request
#[derive(Debug, Clone)]
pub struct OpenFontRequest {
    pub fid: Font,
    pub name: String,
}

/// CreateGlyphCursor request
#[derive(Debug, Clone)]
pub struct CreateGlyphCursorRequest {
    pub cid: Cursor,
    pub source_font: Font,
    pub mask_font: Font,
    pub source_char: u16,
    pub mask_char: u16,
    pub fore_red: u16,
    pub fore_green: u16,
    pub fore_blue: u16,
    pub back_red: u16,
    pub back_green: u16,
    pub back_blue: u16,
}

/// GrabPointer request
#[derive(Debug, Clone)]
pub struct GrabPointerRequest {
    pub owner_events: bool,
    pub grab_window: Window,
    pub event_mask: u16,
    pub pointer_mode: u8,
    pub keyboard_mode: u8,
    pub confine_to: Window,
    pub cursor: Cursor,
    pub time: u32,
}

// ---------------------------------------------------------------------------
// What the parser reads
// ---------------------------------------------------------------------------

/// A big-endian 16-bit field (how `Buf` reads a slice).
pub open spec fn be16(d: Seq<u8>, i: int) -> u16 {
    u16_at(d, i, ByteOrder::BigEndian)
}

/// A big-endian 32-bit field.
pub open spec fn be32(d: Seq<u8>, i: int) -> u32 {
    u32_at(d, i, ByteOrder::BigEndian)
}

pub open spec fn le16f(d: Seq<u8>, i: int) -> u16 {
    u16_at(d, i, ByteOrder::LittleEndian)
}

pub open spec fn le32f(d: Seq<u8>, i: int) -> u32 {
    u32_at(d, i, ByteOrder::LittleEndian)
}

/// `r` is the protocol error with message `m`.
pub open spec fn protocol_error(r: Result<Request>, m: Seq<char>) -> bool {
    r matches Err(X11Error::Protocol(s)) && s@ == m
}

/// The window class a CreateWindow class field names.
pub open spec fn window_class_of(v: u16) -> Option<WindowClass> {
    if v == 0 {
        Some(WindowClass::CopyFromParent)
    } else if v == 1 {
        Some(WindowClass::InputOutput)
    } else if v == 2 {
        Some(WindowClass::InputOnly)
    } else {
        None
    }
}

/// A CreateWindow request as read from `d`, the request's bytes after its header,
/// field by field, each big-endian: depth, wid, parent, x, y, width, height,
/// border width, class, visual and value mask (the value list is not read).
pub open spec fn create_window_parsed(d: Seq<u8>, r: Result<Request>) -> bool {
    if d.len() < 28 {
        protocol_error(r, "CreateWindow request too short"@)
    } else {
        match window_class_of(be16(d, 19)) {
            None => protocol_error(r, "Invalid window class"@),
            Some(class) => r matches Ok(Request::CreateWindow(c)) && c.depth == d[0] && c.wid
                == be32(d, 1) && c.parent == be32(d, 5) && c.x == be16(d, 9) as i16 && c.y
                == be16(d, 11) as i16 && c.width == be16(d, 13) && c.height == be16(d, 15)
                && c.border_width == be16(d, 17) && c.class == class && c.visual == be32(d, 21)
                && c.value_mask.bits == be32(d, 25) & WINDOW_ATTRIBUTES_ALL && no_attributes(
                c.value_list,
            ),
        }
    }
}

/// Whether reading a CreateWindow request would run past its bytes: the value mask
/// is read from a 4-byte field that the length check lets end one byte short.
pub open spec fn create_window_overruns(d: Seq<u8>) -> bool {
    d.len() == 28 && window_class_of(be16(d, 19)) is Some
}

/// A MapWindow request as read from the bytes after its header.
pub open spec fn map_window_parsed(d: Seq<u8>, r: Result<Request>) -> bool {
    if d.len() < 4 {
        protocol_error(r, "MapWindow request too short"@)
    } else {
        r matches Ok(Request::MapWindow(m)) && m.window == be32(d, 0)
    }
}

/// An UnmapWindow request as read from the bytes after its header.
pub open spec fn unmap_window_parsed(d: Seq<u8>, r: Result<Request>) -> bool {
    if d.len() < 8 {
        protocol_error(r, "UnmapWindow request too short"@)
    } else {
        r matches Ok(Request::UnmapWindow(m)) && m.window == be32(d, 0)
    }
}

/// A ClearArea request as read from the bytes after its header, as if they began
/// with a header of their own: exposures from the second byte, then the window,
/// x, y, width and height from the fifth byte on, big-endian.
pub open spec fn clear_area_parsed(d: Seq<u8>, r: Result<Request>) -> bool {
    if d.len() < 20 {
        protocol_error(r, "ClearArea request too short"@)
    } else {
        r matches Ok(Request::ClearArea(c)) && c.exposures == (d[1] != 0) && c.window == be32(
            d,
            4,
        ) && c.x == be16(d, 8) as i16 && c.y == be16(d, 10) as i16 && c.width == be16(d, 12)
            && c.height == be16(d, 14)
    }
}

/// The message for a name that runs past the request.
pub open spec fn truncated_text(what: Seq<char>, need: nat, have: nat) -> Seq<char> {
    what + " request name truncated: need "@ + decimal(need) + " bytes, have "@ + decimal(have)
}

/// An InternAtom request as read from all of its bytes, little-endian: the flag in
/// the second byte, the name's length at 4 and the name from 8 on.
pub open spec fn intern_atom_parsed(b: Seq<u8>, r: Result<Request>) -> bool {
    if b.len() < 8 {
        protocol_error(r, "InternAtom request too short"@)
    } else {
        let n = le16f(b, 4) as nat;
        if b.len() < 8 + n {
            protocol_error(r, truncated_text("InternAtom"@, 8 + n, b.len()))
        } else if !vstd::utf8::valid_utf8(b.subrange(8, 8 + n as int)) {
            protocol_error(r, "Invalid UTF-8 in atom name"@)
        } else {
            r matches Ok(Request::InternAtom(a)) && a.only_if_exists == (b[1] != 0) && a.name@
                == vstd::utf8::decode_utf8(b.subrange(8, 8 + n as int))
        }
    }
}

/// An OpenFont request as read from all of its bytes, little-endian: the font id at
/// 4, the name's length at 8 and the name from 12 on.
pub open spec fn open_font_parsed(b: Seq<u8>, r: Result<Request>) -> bool {
    if b.len() < 12 {
        protocol_error(r, "OpenFont request too short"@)
    } else {
        let n = le16f(b, 8) as nat;
        if b.len() < 12 + n {
            protocol_error(r, truncated_text("OpenFont"@, 12 + n, b.len()))
        } else if !vstd::utf8::valid_utf8(b.subrange(12, 12 + n as int)) {
            protocol_error(r, "Invalid UTF-8 in font name"@)
        } else {
            r matches Ok(Request::OpenFont(f)) && f.fid == le32f(b, 4) && f.name@
                == vstd::utf8::decode_utf8(b.subrange(12, 12 + n as int))
        }
    }
}

/// A CreateGlyphCursor request as read from all of its bytes, little-endian.
pub open spec fn create_glyph_cursor_parsed(b: Seq<u8>, r: Result<Request>) -> bool {
    if b.len() < 32 {
        protocol_error(r, "CreateGlyphCursor request too short"@)
    } else {
        r matches Ok(Request::CreateGlyphCursor(c)) && c.cid == le32f(b, 4) && c.source_font
            == le32f(b, 8) && c.mask_font == le32f(b, 12) && c.source_char == le16f(b, 16)
            && c.mask_char == le16f(b, 18) && c.fore_red == le16f(b, 20) && c.fore_green
            == le16f(b, 22) && c.fore_blue == le16f(b, 24) && c.back_red == le16f(b, 26)
            && c.back_green == le16f(b, 28) && c.back_blue == le16f(b, 30)
    }
}

/// A GrabPointer request as read from all of its bytes, little-endian.
pub open spec fn grab_pointer_parsed(b: Seq<u8>, r: Result<Request>) -> bool {
    if b.len() < 24 {
        protocol_error(r, "GrabPointer request too short"@)
    } else {
        r matches Ok(Request::GrabPointer(g)) && g.owner_events == (b[1] != 0) && g.grab_window
            == le32f(b, 4) && g.event_mask == le16f(b, 8) && g.pointer_mode == b[10]
            && g.keyboard_mode == b[11] && g.confine_to == le32f(b, 12) && g.cursor == le32f(
            b,
            16,
        ) && g.time == le32f(b, 20)
    }
}

/// The message for a request shorter than its length field says.
pub open spec fn incomplete_text(expected: nat, got: nat) -> Seq<char> {
    "Incomplete request: expected "@ + decimal(expected) + " bytes, got "@ + decimal(got)
}

/// What parsing `data` gives when its length field reads `length`.
pub open spec fn request_parsed(data: Seq<u8>, length: u16, r: Result<Request>) -> bool {
    if data.len() < 4 {
        protocol_error(r, "Request too short"@)
    } else if data.len() < 4 * length {
        protocol_error(r, incomplete_text(4 * length as nat, data.len()))
    } else {
        let op = data[0];
        let d = data.subrange(4, data.len() as int);
        if op == CREATE_WINDOW {
            create_window_parsed(d, r)
        } else if op == MAP_WINDOW {
            map_window_parsed(d, r)
        } else if op == UNMAP_WINDOW {
            unmap_window_parsed(d, r)
        } else if op == CLEAR_AREA {
            clear_area_parsed(d, r)
        } else if op == INTERN_ATOM {
            intern_atom_parsed(data, r)
        } else if op == OPEN_FONT {
            open_font_parsed(data, r)
        } else if op == CREATE_GLYPH_CURSOR {
            create_glyph_cursor_parsed(data, r)
        } else if op == GRAB_POINTER {
            grab_pointer_parsed(data, r)
        } else {
            r matches Ok(Request::Unknown { opcode, data: b }) && opcode == op && bytes_contents(b)
                == data
        }
    }
}

/// Whether parsing `data` with length field `length` would read past its end.
pub open spec fn parse_overruns(data: Seq<u8>, length: u16) -> bool {
    data.len() >= 4 && data.len() >= 4 * length && data[0] == CREATE_WINDOW
        && create_window_overruns(data.subrange(4, data.len() as int))
}

/// `u16::from_ne_bytes`: the two bytes as a 16-bit value in the machine's byte
/// order, which is one of the two orders; which one is not stated.
#[verifier::external_body]
fn native_u16(b0: u8, b1: u8) -> (v: u16)
    ensures
        v == u16_at(seq![b0, b1], 0, ByteOrder::LittleEndian) || v == u16_at(
            seq![b0, b1],
            0,
            ByteOrder::BigEndian,
        ),
{
    u16::from_ne_bytes([b0, b1])
}

/// `format!` of the message for a request shorter than its length field says.
#[verifier::external_body]
fn incomplete_message(expected: usize, got: usize) -> (s: String)
    ensures
        s@ == incomplete_text(expected as nat, got as nat),
{
    format!("Incomplete request: expected {} bytes, got {}", expected, got)
}

/// `format!` of the message for a name that runs past the request.
#[verifier::external_body]
fn truncated_message(what: &str, need: usize, have: usize) -> (s: String)
    ensures
        s@ == truncated_text(what@, need as nat, have as nat),
{
    format!("{} request name truncated: need {} bytes, have {}", what, need, have)
}

fn protocol_err(m: &str) -> (r: Result<Request>)
    ensures
        protocol_error(r, m@),
{
    Err(X11Error::Protocol(m.to_owned()))
}

fn be16_at(d: &[u8], i: usize) -> (v: u16)
    requires
        i + 2 <= d@.len(),
    ensures
        v == be16(d@, i as int),
{
    decode_u16(d[i], d[i + 1], ByteOrder::BigEndian)
}

fn be32_at(d: &[u8], i: usize) -> (v: u32)
    requires
        i + 4 <= d@.len(),
    ensures
        v == be32(d@, i as int),
{
    decode_u32(d[i], d[i + 1], d[i + 2], d[i + 3], ByteOrder::BigEndian)
}

fn le16_at(d: &[u8], i: usize) -> (v: u16)
    requires
        i + 2 <= d@.len(),
    ensures
        v == le16f(d@, i as int),
{
    decode_u16(d[i], d[i + 1], ByteOrder::LittleEndian)
}

fn le32_at(d: &[u8], i: usize) -> (v: u32)
    requires
        i + 4 <= d@.len(),
    ensures
        v == le32f(d@, i as int),
{
    decode_u32(d[i], d[i + 1], d[i + 2], d[i + 3], ByteOrder::LittleEndian)
}

/// Request parser for incoming X11 protocol data
pub struct RequestParser;

impl RequestParser {
    /// Parse a request from bytes. The length field is read in the machine's byte
    /// order; the request parses as `request_parsed` says with the field read in one
    /// of the two orders.
    pub fn parse(data: &[u8]) -> (r: Result<Request>)
        requires
            data@.len() <= buffer_limit(),
            !(data@.len() >= 4 && parse_overruns(data@, u16_at(data@, 2, ByteOrder::LittleEndian))),
            !(data@.len() >= 4 && parse_overruns(data@, u16_at(data@, 2, ByteOrder::BigEndian))),
        ensures
            data@.len() < 4 ==> protocol_error(r, "Request too short"@),
            data@.len() >= 4 ==> request_parsed(
                data@,
                u16_at(data@, 2, ByteOrder::LittleEndian),
                r,
            ) || request_parsed(data@, u16_at(data@, 2, ByteOrder::BigEndian), r),
    {
        if data.len() < 4 {
            return protocol_err("Request too short");
        }
        let length = native_u16(data[2], data[3]);
        assert(seq![data@[2], data@[3]] =~= data@.subrange(2, 4));
        Self::parse_with_length(data, length)
    }

    /// Parse a request whose length field reads `length`.
    pub fn parse_with_length(data: &[u8], length: u16) -> (r: Result<Request>)
        requires
            data@.len() <= buffer_limit(),
            !parse_overruns(data@, length),
        ensures
            request_parsed(data@, length, r),
    {
        if data.len() < 4 {
            return protocol_err("Request too short");
        }
        let opcode = data[0];
        let expected_bytes = (length as usize) * 4;
        if data.len() < expected_bytes {
            return Err(X11Error::Protocol(incomplete_message(expected_bytes, data.len())));
        }
        let rest = &data[4..data.len()];
        assert(rest@ =~= data@.subrange(4, data@.len() as int));
        if opcode == CREATE_WINDOW {
            Self::parse_create_window(rest)
        } else if opcode == MAP_WINDOW {
            Self::parse_map_window(rest)
        } else if opcode == UNMAP_WINDOW {
            Self::parse_unmap_window(rest)
        } else if opcode == CLEAR_AREA {
            Self::parse_clear_area(rest)
        } else if opcode == INTERN_ATOM {
            Self::parse_intern_atom(data)
        } else if opcode == OPEN_FONT {
            Self::parse_open_font(data)
        } else if opcode == CREATE_GLYPH_CURSOR {
            Self::parse_create_glyph_cursor(data)
        } else if opcode == GRAB_POINTER {
            Self::parse_grab_pointer(data)
        } else {
            Ok(Request::Unknown { opcode, data: bytes_copy_from_slice(data) })
        }
    }

    fn parse_create_window(data: &[u8]) -> (r: Result<Request>)
        requires
            !create_window_overruns(data@),
        ensures
            create_window_parsed(data@, r),
    {
        if data.len() < 28 {
            return protocol_err("CreateWindow request too short");
        }
        let depth = data[0];
        let wid = be32_at(data, 1);
        let parent = be32_at(data, 5);
        let x = be16_at(data, 9) as i16;
        let y = be16_at(data, 11) as i16;
        let width = be16_at(data, 13);
        let height = be16_at(data, 15);
        let border_width = be16_at(data, 17);
        let class_value = be16_at(data, 19);
        let class = if class_value == 0 {
            WindowClass::CopyFromParent
        } else if class_value == 1 {
            WindowClass::InputOutput
        } else if class_value == 2 {
            WindowClass::InputOnly
        } else {
            return protocol_err("Invalid window class");
        };
        let visual = be32_at(data, 21);
        let value_mask = WindowAttributesMask::from_bits_truncate(be32_at(data, 25));
        let value_list = WindowAttributes::default();
        Ok(
            Request::CreateWindow(
                CreateWindowRequest {
                    depth,
                    wid,
                    parent,
                    x,
                    y,
                    width,
                    height,
                    border_width,
                    class,
                    visual,
                    value_mask,
                    value_list,
                },
            ),
        )
    }

    fn parse_map_window(data: &[u8]) -> (r: Result<Request>)
        ensures
            map_window_parsed(data@, r),
    {
        if data.len() < 4 {
            return protocol_err("MapWindow request too short");
        }
        let window = be32_at(data, 0);
        Ok(Request::MapWindow(MapWindowRequest { window }))
    }

    fn parse_unmap_window(data: &[u8]) -> (r: Result<Request>)
        ensures
            unmap_window_parsed(data@, r),
    {
        if data.len() < 8 {
            return protocol_err("UnmapWindow request too short");
        }
        let window = be32_at(data, 0);
        Ok(Request::UnmapWindow(UnmapWindowRequest { window }))
    }

    fn parse_clear_area(data: &[u8]) -> (r: Result<Request>)
        ensures
            clear_area_parsed(data@, r),
    {
        if data.len() < 20 {
            return protocol_err("ClearArea request too short");
        }
        let exposures = data[1] != 0;
        let window = be32_at(data, 4);
        let x = be16_at(data, 8) as i16;
        let y = be16_at(data, 10) as i16;
        let width = be16_at(data, 12);
        let height = be16_at(data, 14);
        Ok(Request::ClearArea(ClearAreaRequest { exposures, window, x, y, width, height }))
    }

    fn parse_intern_atom(data: &[u8]) -> (r: Result<Request>)
        requires
            data@.len() <= buffer_limit(),
        ensures
            intern_atom_parsed(data@, r),
    {
        if data.len() < 8 {
            return protocol_err("InternAtom request too short");
        }
        let only_if_exists = data[1] != 0;
        let name_length = le16_at(data, 4) as usize;
        if data.len() < 8 + name_length {
            return Err(
                X11Error::Protocol(truncated_message("InternAtom", 8 + name_length, data.len())),
            );
        }
        let name_bytes = &data[8..8 + name_length];
        let name = match string_from_utf8(name_bytes) {
            Some(s) => s,
            None => {
                return protocol_err("Invalid UTF-8 in atom name");
            },
        };
        Ok(Request::InternAtom(InternAtomRequest { only_if_exists, name }))
    }

    fn parse_open_font(data: &[u8]) -> (r: Result<Request>)
        requires
            data@.len() <= buffer_limit(),
        ensures
            open_font_parsed(data@, r),
    {
        if data.len() < 12 {
            return protocol_err("OpenFont request too short");
        }
        let fid = le32_at(data, 4);
        let name_length = le16_at(data, 8) as usize;
        if data.len() < 12 + name_length {
            return Err(
                X11Error::Protocol(truncated_message("OpenFont", 12 + name_length, data.len())),
            );
        }
        let name_bytes = &data[12..12 + name_length];
        let name = match string_from_utf8(name_bytes) {
            Some(s) => s,
            None => {
                return protocol_err("Invalid UTF-8 in font name");
            },
        };
        Ok(Request::OpenFont(OpenFontRequest { fid, name }))
    }

    fn parse_create_glyph_cursor(data: &[u8]) -> (r: Result<Request>)
        ensures
            create_glyph_cursor_parsed(data@, r),
    {
        if data.len() < 32 {
            return protocol_err("CreateGlyphCursor request too short");
        }
        Ok(
            Request::CreateGlyphCursor(
                CreateGlyphCursorRequest {
                    cid: le32_at(data, 4),
                    source_font: le32_at(data, 8),
                    mask_font: le32_at(data, 12),
                    source_char: le16_at(data, 16),
                    mask_char: le16_at(data, 18),
                    fore_red: le16_at(data, 20),
                    fore_green: le16_at(data, 22),
                    fore_blue: le16_at(data, 24),
                    back_red: le16_at(data, 26),
                    back_green: le16_at(data, 28),
                    back_blue: le16_at(data, 30),
                },
            ),
        )
    }

    fn parse_grab_pointer(data: &[u8]) -> (r: Result<Request>)
        ensures
            grab_pointer_parsed(data@, r),
    {
        if data.len() < 24 {
            return protocol_err("GrabPointer request too short");
        }
        Ok(
            Request::GrabPointer(
                GrabPointerRequest {
                    owner_events: data[1] != 0,
                    grab_window: le32_at(data, 4),
                    event_mask: le16_at(data, 8),
                    pointer_mode: data[10],
                    keyboard_mode: data[11],
                    confine_to: le32_at(data, 12),
                    cursor: le32_at(data, 16),
                    time: le32_at(data, 20),
                },
            ),
        )
    }
}

/// The decimal text of a signed value.
pub open spec fn signed_decimal(v: int) -> Seq<char> {
    if v < 0 {
        "-"@ + decimal((-v) as nat)
    } else {
        decimal(v as nat)
    }
}

/// The text of a boolean.
pub open spec fn bool_text(b: bool) -> Seq<char> {
    if b {
        "true"@
    } else {
        "false"@
    }
}

/// The one-line text of a request: its name and main fields for the requests this
/// parser reads; other requests are written as their `Debug` form, which is not stated.
pub open spec fn request_text(r: Request) -> Option<Seq<char>> {
    match r {
        Request::CreateWindow(c) => Some(
            create_window_line(c.wid, c.parent, c.width, c.height, c.x, c.y),
        ),
        Request::MapWindow(m) => Some("MapWindow("@ + decimal(m.window as nat) + ")"@),
        Request::UnmapWindow(m) => Some("UnmapWindow("@ + decimal(m.window as nat) + ")"@),
        Request::ClearArea(c) => Some(
            "ClearArea(window="@ + decimal(c.window as nat) + ", "@ + decimal(c.width as nat)
                + "x"@ + decimal(c.height as nat) + "+"@ + signed_decimal(c.x as int) + "+"@
                + signed_decimal(c.y as int) + ")"@,
        ),
        Request::InternAtom(a) => Some(
            "InternAtom(name='"@ + a.name@ + "', only_if_exists="@ + bool_text(a.only_if_exists)
                + ")"@,
        ),
        Request::OpenFont(f) => Some(
            "OpenFont(fid="@ + decimal(f.fid as nat) + ", name='"@ + f.name@ + "')"@,
        ),
        Request::CreateGlyphCursor(c) => Some(
            "CreateGlyphCursor(cid="@ + decimal(c.cid as nat) + ", source_font="@ + decimal(
                c.source_font as nat,
            ) + ", mask_font="@ + decimal(c.mask_font as nat) + ", source_char="@ + decimal(
                c.source_char as nat,
            ) + ", mask_char="@ + decimal(c.mask_char as nat) + ")"@,
        ),
        _ => None,
    }
}

/// The text of a CreateWindow request.
pub open spec fn create_window_line(wid: u32, parent: u32, width: u16, height: u16, x: i16, y: i16) -> Seq<char> {
    "CreateWindow(wid="@ + decimal(wid as nat) + ", parent="@ + decimal(parent as nat) + ", "@
        + decimal(width as nat) + "x"@ + decimal(height as nat) + "+"@ + signed_decimal(x as int)
        + "+"@ + signed_decimal(y as int) + ")"@
}

/// `format!` of a CreateWindow request's text.
#[verifier::external_body]
fn create_window_text(wid: u32, parent: u32, width: u16, height: u16, x: i16, y: i16) -> (s: String)
    ensures
        s@ == create_window_line(wid, parent, width, height, x, y),
{
    format!("CreateWindow(wid={}, parent={}, {}x{}+{}+{})", wid, parent, width, height, x, y)
}

/// `format!` of a MapWindow request's text.
#[verifier::external_body]
fn map_window_text(window: u32) -> (s: String)
    ensures
        s@ == "MapWindow("@ + decimal(window as nat) + ")"@,
{
    format!("MapWindow({})", window)
}

/// `format!` of an UnmapWindow request's text.
#[verifier::external_body]
fn unmap_window_text(window: u32) -> (s: String)
    ensures
        s@ == "UnmapWindow("@ + decimal(window as nat) + ")"@,
{
    format!("UnmapWindow({})", window)
}

/// `format!` of a ClearArea request's text.
#[verifier::external_body]
fn clear_area_text(c: &ClearAreaRequest) -> (s: String)
    ensures
        Some(s@) == request_text(Request::ClearArea(*c)),
{
    format!("ClearArea(window={}, {}x{}+{}+{})", c.window, c.width, c.height, c.x, c.y)
}

/// `format!` of an InternAtom request's text.
#[verifier::external_body]
fn intern_atom_text(a: &InternAtomRequest) -> (s: String)
    ensures
        Some(s@) == request_text(Request::InternAtom(*a)),
{
    format!("InternAtom(name='{}', only_if_exists={})", a.name, a.only_if_exists)
}

/// `format!` of an OpenFont request's text.
#[verifier::external_body]
fn open_font_text(f: &OpenFontRequest) -> (s: String)
    ensures
        Some(s@) == request_text(Request::OpenFont(*f)),
{
    format!("OpenFont(fid={}, name='{}')", f.fid, f.name)
}

/// `format!` of a CreateGlyphCursor request's text.
#[verifier::external_body]
fn create_glyph_cursor_text(c: &CreateGlyphCursorRequest) -> (s: String)
    ensures
        Some(s@) == request_text(Request::CreateGlyphCursor(*c)),
{
    format!(
        "CreateGlyphCursor(cid={}, source_font={}, mask_font={}, source_char={}, mask_char={})",
        c.cid,
        c.source_font,
        c.mask_font,
        c.source_char,
        c.mask_char
    )
}

/// `format!("{:?}", ..)` of a request, for those without a text of their own. What
/// the derived `Debug` writes is not stated.
#[verifier::external_body]
fn debug_text(r: &Request) -> (s: String) {
    format!("{:?}", r)
}

impl Request {
    /// The request's one-line text (what `Display` writes for it).
    pub fn describe(&self) -> (s: String)
        ensures
            request_text(*self) matches Some(t) ==> s@ == t,
    {
        match self {
            Request::CreateWindow(c) => create_window_text(
                c.wid,
                c.parent,
                c.width,
                c.height,
                c.x,
                c.y,
            ),
            Request::MapWindow(m) => map_window_text(m.window),
            Request::UnmapWindow(m) => unmap_window_text(m.window),
            Request::ClearArea(c) => clear_area_text(c),
            Request::InternAtom(a) => intern_atom_text(a),
            Request::OpenFont(f) => open_font_text(f),
            Request::CreateGlyphCursor(c) => create_glyph_cursor_text(c),
            _ => debug_text(self),
        }
    }
}

} // verus!

//! X11 request structures and their parsers.
//!
//! Every parser reads the request's little-endian wire bytes into a typed
//! request; each `validate` checks the fields a handler depends on.

use vstd::prelude::*;
use crate::protocol::constants::FIRST_EXTENSION_OPCODE;
use crate::protocol::endianness::{decode_u16, decode_u32, le16_at, le32_at};
use crate::protocol::extension_registry::{spec_extension_for_opcode, ExtensionRegistry};
use crate::protocol::opcodes::atom::{CHANGE_PROPERTY, GET_PROPERTY, INTERN_ATOM};
use crate::protocol::opcodes::colormap::QUERY_COLORS;
use crate::protocol::opcodes::cursor::CREATE_GLYPH_CURSOR;
use crate::protocol::opcodes::graphics::{
    CHANGE_GC, CLEAR_AREA, COPY_AREA, CREATE_GC, FREE_GC, POLY_ARC, POLY_FILL_ARC,
    POLY_FILL_RECTANGLE, POLY_LINE, PUT_IMAGE,
};
use crate::protocol::opcodes::input::GET_INPUT_FOCUS;
use crate::protocol::opcodes::pixmap::{CREATE_PIXMAP, FREE_PIXMAP};
use crate::protocol::opcodes::server::{NO_OPERATION, QUERY_EXTENSION};
use crate::protocol::opcodes::text::OPEN_FONT;
use crate::protocol::opcodes::window::{
    CREATE_WINDOW, DESTROY_WINDOW, GET_GEOMETRY, MAP_WINDOW, UNMAP_WINDOW,
};
use crate::protocol::types::{
    RenderOpcode, ByteOrder, ColormapId, CursorId, DrawableId, FontId, GContextId, PictureId, PixmapId,
    RandrOpcode, SequenceNumber, VisualId, WindowId, Atom,
};
use crate::protocol::utf8::{lossy_text, str_eq, string_from_utf8_lossy};

verus! {

#[derive(Debug, Clone)]
pub enum RequestKind {
    ConnectionSetup,
    GetGeometry(GetGeometryRequest),
    InternAtom(InternAtomRequest),
    ChangeProperty(ChangePropertyRequest),
    GetProperty(GetPropertyRequest),
    QueryColors(QueryColorsRequest),
    CreatePixmap(CreatePixmapRequest),
    FreePixmap(FreePixmapRequest),
    GetInputFocus(GetInputFocusRequest),
    PutImage(PutImageRequest),
    CreateWindow(CreateWindowRequest),
    DestroyWindow(DestroyWindowRequest),
    MapWindow(MapWindowRequest),
    UnmapWindow(UnmapWindowRequest),
    ClearArea(ClearAreaRequest),
    CreateGC(CreateGCRequest),
    ChangeGC(ChangeGCRequest),
    FreeGC(FreeGCRequest),
    PolyArc(PolyArcRequest),
    CopyArea(CopyAreaRequest),
    FillArc(FillArcRequest),
    PolyLine(PolyLineRequest),
    PolyFillRectangle(PolyFillRectangleRequest),
    CreateGlyphCursor(CreateGlyphCursorRequest),
    OpenFont(OpenFontRequest),
    GrabPointer(GrabPointerRequest),
    NoOperation(NoOperationRequest),
    QueryExtension(QueryExtensionRequest),
    BigRequests(BigRequestsRequest),
    // RANDR extension requests
    RandrQueryVersion(RandrQueryVersionRequest),
    RandrGetScreenResources(RandrGetScreenResourcesRequest),
    RandrGetOutputInfo(RandrGetOutputInfoRequest),
    RandrGetCrtcInfo(RandrGetCrtcInfoRequest),
    RandrGetScreenSizeRange(RandrGetScreenSizeRangeRequest),
    // RENDER extension requests
    RenderQueryVersion(RenderQueryVersionRequest),
    RenderCreateSolidFill(RenderCreateSolidFillRequest),
}

#[derive(Debug, Clone)]
pub struct Request {
    pub kind: RequestKind,
    pub sequence_number: SequenceNumber,
    pub opcode: u8,
    pub minor_opcode: Option<u8>, // For extension requests
}

/// GetGeometry request structure matching X11 protocol
#[derive(Debug, Clone, Copy, PartialEq, Eq)]
pub struct GetGeometryRequest {
    pub opcode: u8,  // Should be 14
    pub unused: u8,  // Padding
    pub length: u16, // Request length in 4-byte units (always 2)
    pub drawable: DrawableId,
}

/// InternAtom request structure matching X11 protocol
#[derive(Debug, Clone, PartialEq, Eq)]
pub struct InternAtomRequest {
    pub opcode: u8,         // Should be 16
    pub only_if_exists: u8, // BOOL
    pub length: u16,        // Request length in 4-byte units
    pub name_len: u16,      // Length of name
    pub unused: u16,        // Padding
    pub atom_name: String,  // Atom name
}

/// ChangeProperty request structure matching X11 protocol
#[derive(Debug, Clone, PartialEq, Eq)]
pub struct ChangePropertyRequest {
    pub opcode: u8,       // Should be 18
    pub mode: u8,         // 0 = Replace, 1 = Prepend, 2 = Append
    pub length: u16,      // Request length in 4-byte units
    pub window: WindowId, // Window
    pub property: Atom,   // Property atom
    pub property_type: Atom,     // Type atom
    pub format: u8,       // 8, 16, or 32
    pub data: Vec<u8>,    // Raw property data (format units, unpadded)
}

/// GetProperty request structure matching X11 protocol
#[derive(Debug, Clone, PartialEq, Eq)]
pub struct GetPropertyRequest {
    pub opcode: u8,       // Should be 20
    pub delete: u8,       // BOOL: delete property
    pub length: u16,      // Request length in 4-byte units
    pub window: WindowId, // Window
    pub property: Atom,   // Property atom
    pub property_type: Atom,     // Type atom (0 = AnyType)
    pub long_offset: u32, // Long offset
    pub long_length: u32, // Long length
}

/// QueryColors request structure matching X11 protocol
#[derive(Debug, Clone, PartialEq, Eq)]
pub struct QueryColorsRequest {
    pub opcode: u8,           // Should be 91
    pub unused: u8,           // Padding
    pub length: u16,          // Request length in 4-byte units
    pub colormap: ColormapId, // Colormap
    pub pixels: Vec<u32>,     // Pixel values to look up
}

/// CreatePixmap request structure matching X11 protocol
#[derive(Debug, Clone, PartialEq, Eq)]
pub struct CreatePixmapRequest {
    pub opcode: u8,           // Should be 53
    pub depth: u8,            // Depth
    pub length: u16,          // Request length in 4-byte units
    pub pid: PixmapId,        // Pixmap ID
    pub drawable: DrawableId, // Drawable
    pub width: u16,           // Width
    pub height: u16,          // Height
}

/// FreePixmap request structure matching X11 protocol
#[derive(Debug, Clone, Copy, PartialEq, Eq)]
pub struct FreePixmapRequest {
    pub opcode: u8,       // 54: opcode
    pub unused: u8,       // unused
    pub length: u16,      // request length (2)
    pub pixmap: PixmapId, // pixmap id
}

/// PutImage request structure matching X11 protocol
#[derive(Debug, Clone, PartialEq, Eq)]
pub struct PutImageRequest {
    pub opcode: u8,           // Should be 72
    pub format: u8,           // Image format (0=Bitmap, 1=XYPixmap, 2=ZPixmap)
    pub length: u16,          // Request length in 4-byte units
    pub drawable: DrawableId, // Drawable
    pub gc: GContextId,       // Graphics context
    pub width: u16,           // Width
    pub height: u16,          // Height
    pub dst_x: i16,           // Destination X
    pub dst_y: i16,           // Destination Y
    pub left_pad: u8,         // Left pad
    pub depth: u8,            // Depth
    pub data: Vec<u8>,        // Image data
}

/// CreateWindow request structure matching X11 protocol
#[derive(Debug, Clone, PartialEq, Eq)]
pub struct CreateWindowRequest {
    pub opcode: u8,           // 1: opcode (1)
    pub depth: u8,            // 1: depth
    pub length: u16,          // 2: request length in 4-byte units (8+n)
    pub wid: WindowId,        // 4: window id
    pub parent: WindowId,     // 4: parent window id
    pub x: i16,               // 2: x position
    pub y: i16,               // 2: y position
    pub width: u16,           // 2: width
    pub height: u16,          // 2: height
    pub border_width: u16,    // 2: border width
    pub class: u16,           // 2: window class (see WindowClass enum)
    pub visual: VisualId,     // 4: visual id (0 = CopyFromParent)
    pub value_mask: u32,      // 4: value mask
    pub value_list: Vec<u32>, // 4n: variable length value list
}

/// DestroyWindow request structure
#[derive(Debug, Clone, Copy, PartialEq, Eq)]
pub struct DestroyWindowRequest {
    pub opcode: u8,       // opcode (4)
    pub unused: u8,       // unused
    pub length: u16,      // request length (2)
    pub window: WindowId, // window to destroy
}

/// MapWindow request structure
#[derive(Debug, Clone, Copy, PartialEq, Eq)]
pub struct MapWindowRequest {
    pub opcode: u8,       // opcode (8)
    pub unused: u8,       // unused
    pub length: u16,      // request length (2)
    pub window: WindowId, // window to map
}

/// UnmapWindow request structure
#[derive(Debug, Clone, Copy, PartialEq, Eq)]
pub struct UnmapWindowRequest {
    pub opcode: u8,       // opcode (10)
    pub unused: u8,       // unused
    pub length: u16,      // request length (2)
    pub window: WindowId, // window to unmap
}

/// ClearArea request structure matching X11 protocol
#[derive(Debug, Clone, Copy, PartialEq, Eq)]
pub struct ClearAreaRequest {
    pub opcode: u8,       // opcode (61)
    pub exposures: u8,    // BOOL: whether to generate Expose events
    pub length: u16,      // request length (4)
    pub window: WindowId, // window to clear
    pub x: i16,
    pub y: i16,
    pub width: u16,
    pub height: u16,
}

/// CreateGC request structure matching X11 protocol
#[derive(Debug, Clone, PartialEq, Eq)]
pub struct CreateGCRequest {
    pub opcode: u8,           // 55: opcode
    pub unused: u8,           // unused
    pub length: u16,          // request length in 4-byte units
    pub gc: GContextId,       // graphics context id
    pub drawable: DrawableId, // drawable
    pub value_mask: u32,      // value mask
    pub value_list: Vec<u32>, // variable length value list
}

/// ChangeGC request structure matching X11 protocol
#[derive(Debug, Clone, PartialEq, Eq)]
pub struct ChangeGCRequest {
    pub opcode: u8,           // 56: opcode
    pub unused: u8,           // unused
    pub length: u16,          // request length in 4-byte units
    pub gc: GContextId,       // graphics context id
    pub value_mask: u32,      // value mask
    pub value_list: Vec<u32>, // variable length value list
}

/// FreeGC request structure matching X11 protocol
#[derive(Debug, Clone, Copy, PartialEq, Eq)]
pub struct FreeGCRequest {
    pub opcode: u8,     // 60: opcode
    pub unused: u8,     // unused
    pub length: u16,    // request length (2)
    pub gc: GContextId, // graphics context id
}

/// Arc structure for PolyArc and FillArc
#[derive(Debug, Clone, Copy, PartialEq, Eq)]
pub struct Arc {
    pub x: i16,      // X coordinate
    pub y: i16,      // Y coordinate
    pub width: u16,  // Width
    pub height: u16, // Height
    pub angle1: i16, // Start angle
    pub angle2: i16, // End angle
}

/// CopyArea request structure matching X11 protocol
#[derive(Debug, Clone, Copy, PartialEq, Eq)]
pub struct CopyAreaRequest {
    pub opcode: u8,               // Should be 60
    pub unused: u8,               // unused
    pub length: u16,              // Request length in 4-byte units
    pub src_drawable: DrawableId, // Source drawable
    pub dst_drawable: DrawableId, // Destination drawable
    pub gc: GContextId,           // Graphics context
    pub src_x: i16,               // Source X
    pub src_y: i16,               // Source Y
    pub dst_x: i16,               // Destination X
    pub dst_y: i16,               // Destination Y
    pub width: u16,               // Width
    pub height: u16,              // Height
}

/// PolyArc request structure
#[derive(Debug, Clone, PartialEq, Eq)]
pub struct PolyArcRequest {
    pub opcode: u8,           // 59: opcode
    pub unused: u8,           // unused
    pub length: u16,          // request length in 4-byte units
    pub drawable: DrawableId, // drawable
    pub gc: GContextId,       // graphics context
    pub arcs: Vec<Arc>,       // list of arcs
}

/// FillArc request structure
#[derive(Debug, Clone, PartialEq, Eq)]
pub struct FillArcRequest {
    pub opcode: u8,           // 61: opcode
    pub unused: u8,           // unused
    pub length: u16,          // request length in 4-byte units
    pub drawable: DrawableId, // drawable
    pub gc: GContextId,       // graphics context
    pub arcs: Vec<Arc>,       // list of arcs
}

/// Point structure for PolyLine
#[derive(Debug, Clone, Copy, PartialEq, Eq)]
pub struct Point {
    pub x: i16, // X coordinate
    pub y: i16, // Y coordinate
}

/// PolyLine request structure
#[derive(Debug, Clone, PartialEq, Eq)]
pub struct PolyLineRequest {
    pub opcode: u8,           // 65: opcode
    pub coordinate_mode: u8,  // coordinate mode
    pub length: u16,          // request length in 4-byte units
    pub drawable: DrawableId, // drawable
    pub gc: GContextId,       // graphics context
    pub points: Vec<Point>,   // list of points
}

/// Rectangle structure for PolyFillRectangle
#[derive(Debug, Clone, Copy, PartialEq, Eq)]
pub struct Rectangle {
    pub x: i16,      // X coordinate
    pub y: i16,      // Y coordinate
    pub width: u16,  // Width
    pub height: u16, // Height
}

/// PolyFillRectangle request structure
#[derive(Debug, Clone, PartialEq, Eq)]
pub struct PolyFillRectangleRequest {
    pub opcode: u8,                 // 70: opcode
    pub unused: u8,                 // unused
    pub length: u16,                // request length in 4-byte units
    pub drawable: DrawableId,       // drawable
    pub gc: GContextId,             // graphics context
    pub rectangles: Vec<Rectangle>, // list of rectangles
}

/// CreateGlyphCursor request structure
#[derive(Debug, Clone, Copy, PartialEq, Eq)]
pub struct CreateGlyphCursorRequest {
    pub opcode: u8,          // opcode (94)
    pub unused: u8,          // unused
    pub length: u16,         // request length
    pub cid: CursorId,       // cursor id
    pub source_font: FontId, // source font
    pub mask_font: FontId,   // mask font (0 = None)
    pub source_char: u16,    // source character
    pub mask_char: u16,      // mask character
    pub fore_red: u16,       // foreground red
    pub fore_green: u16,     // foreground green
    pub fore_blue: u16,      // foreground blue
    pub back_red: u16,       // background red
    pub back_green: u16,     // background green
    pub back_blue: u16,      // background blue
}

/// OpenFont request structure
#[derive(Debug, Clone, PartialEq, Eq)]
pub struct OpenFontRequest {
    pub opcode: u8,    // opcode (45)
    pub unused: u8,    // unused
    pub length: u16,   // request length
    pub fid: FontId,   // font id
    pub name_len: u16, // length of name
    pub unused2: u16,  // padding
    pub name: String,  // font name
}

/// GrabCursor request structure
#[derive(Debug, Clone, PartialEq, Eq)]
pub struct GrabPointerRequest {
    pub opcode: u8,            // opcode (26)
    pub owner_events: u8,      // BOOL
    pub length: u16,           // request length
    pub grab_window: WindowId, // grab window id
    pub event_mask: u32,       // event mask
    pub pointer_mode: u8,      // pointer mode (see PointerMode enum)
    pub keyboard_mode: u8,     // keyboard mode (see KeyboardMode enum)
    pub confine_to: WindowId,  // confine to window (0 = None)
    pub cursor: CursorId,      // cursor id (0 = None)
    pub time: u32,             // timestamp (0 = CurrentTime)
}

/// GetInputFocus request structure matching X11 protocol
#[derive(Debug, Clone, Copy, PartialEq, Eq)]
pub struct GetInputFocusRequest {
    pub opcode: u8,  // Should be 43
    pub unused: u8,  // Padding
    pub length: u16, // Request length in 4-byte units (always 1)
}

/// NoOperation request structure
#[derive(Debug, Clone, Copy, PartialEq, Eq)]
pub struct NoOperationRequest {
    pub opcode: u8,  // opcode (127)
    pub unused: u8,  // unused
    pub length: u16, // request length
}

#[derive(Debug, Clone)]
pub struct QueryExtensionRequest {
    pub opcode: u8,    // Should be 98
    pub unused: u8,    // unused
    pub length: u16,   // Request length in 4-byte units
    pub name_len: u16, // Length of extension name
    pub unused2: u16,  // Padding
    pub name: String,  // Extension name
}

/// BigRequests request structure for BIG-REQUESTS extension
#[derive(Debug, Clone)]
pub struct BigRequestsRequest {
    pub opcode: u8,            // Should be 134
    pub unused: u8,            // unused
    pub length: u32,           // 32-bit length in 4-byte units
    pub request_data: Vec<u8>, // The wrapped request data
}

// RANDR extension request structures
#[derive(Debug, Clone)]
pub struct RandrQueryVersionRequest {
    pub major_version: u32,
    pub minor_version: u32,
}

#[derive(Debug, Clone)]
pub struct RandrGetScreenResourcesRequest {
    pub window: u32, // Window ID
}

#[derive(Debug, Clone)]
pub struct RandrGetOutputInfoRequest {
    pub output: u32,           // Output ID
    pub config_timestamp: u32, // Timestamp
}

#[derive(Debug, Clone)]
pub struct RandrGetCrtcInfoRequest {
    pub crtc: u32,             // CRTC ID
    pub config_timestamp: u32, // Timestamp
}

#[derive(Debug, Clone)]
pub struct RandrGetScreenSizeRangeRequest {
    pub window: u32, // Window ID
}

// RENDER extension request structures
#[derive(Debug, Clone)]
pub struct RenderQueryVersionRequest {
    pub client_major_version: u32,
    pub client_minor_version: u32,
}

#[derive(Debug, Clone, Copy, PartialEq, Eq)]
pub struct RenderCreateSolidFillRequest {
    pub pid: PictureId,
    pub red: u16,
    pub green: u16,
    pub blue: u16,
    pub alpha: u16,
}

/// Individual parser implementations for each request type
pub struct GetGeometryParser;
pub struct InternAtomParser;
pub struct ChangePropertyParser;
pub struct GetPropertyParser;
pub struct QueryColorsParser;
pub struct CreatePixmapParser;
pub struct FreePixmapParser;
pub struct GetInputFocusParser;
pub struct PutImageParser;
pub struct CreateWindowParser;
pub struct DestroyWindowParser;
pub struct MapWindowParser;
pub struct UnmapWindowParser;
pub struct ClearAreaParser;
pub struct CreateGCParser;
pub struct ChangeGCParser;
pub struct FreeGCParser;
pub struct PolyArcParser;
pub struct CopyAreaParser;
pub struct FillArcParser;
pub struct PolyLineParser;
pub struct PolyFillRectangleParser;
pub struct CreateGlyphCursorParser;
pub struct OpenFontParser;
pub struct NoOperationParser;
pub struct QueryExtensionParser;
pub struct BigRequestsParser;
// RANDR parsers
pub struct RandrQueryVersionParser;
pub struct RandrGetScreenResourcesParser;
pub struct RandrGetOutputInfoParser;
pub struct RandrGetCrtcInfoParser;
pub struct RandrGetScreenSizeRangeParser;
// RENDER parsers
pub struct RenderQueryVersionParser;
pub struct RenderCreateSolidFillParser;


/// Why a request could not be parsed or failed validation.
#[derive(Debug, Clone, PartialEq, Eq)]
pub enum RequestError {
    /// The buffer is shorter than the request's fixed part (names the request).
    TooShort(&'static str),
    /// The request's length or a count field claims more bytes than the buffer holds.
    Truncated(&'static str),
    /// ChangeProperty carries a format other than 8, 16 or 32.
    InvalidFormat(u8),
    /// A field failed validation (the message names the request and the field).
    Invalid(&'static str),
    /// A GC value mask has bits set beyond the 23 defined ones.
    UnsupportedValueMaskBits(u32),
    /// A GC value list holds a different number of values than its mask has bits.
    ValueCountMismatch(usize, usize),
    /// A parser's `validate` was handed another kind of request.
    WrongRequestKind(&'static str),
    /// No parser for this core opcode.
    UnknownOpcode(u8),
    /// An extension opcode handed to the core-only dispatcher.
    ExtensionNeedsRegistry(u8),
    /// An extension request with a minor opcode this server does not parse.
    UnknownMinorOpcode(&'static str, u8),
    /// An extension that has an opcode assigned but no request parser yet.
    NoParserForExtension(&'static str),
}

/// Read a little-endian 16-bit value at `i`.
fn get_le16(bytes: &[u8], i: usize) -> (v: u16)
    requires
        i + 2 <= bytes@.len(),
    ensures
        v == le16_at(bytes@, i as int),
{
    decode_u16(bytes[i], bytes[i + 1], ByteOrder::LittleEndian)
}

/// Read a little-endian 32-bit value at `i`.
fn get_le32(bytes: &[u8], i: usize) -> (v: u32)
    requires
        i + 4 <= bytes@.len(),
    ensures
        v == le32_at(bytes@, i as int),
{
    decode_u32(bytes[i], bytes[i + 1], bytes[i + 2], bytes[i + 3], ByteOrder::LittleEndian)
}

/// Read a little-endian signed 16-bit value at `i`.
fn get_le_i16(bytes: &[u8], i: usize) -> (v: i16)
    requires
        i + 2 <= bytes@.len(),
    ensures
        v == le16_at(bytes@, i as int) as i16,
{
    get_le16(bytes, i) as i16
}

/// An owned copy of `bytes[start..end]`.
pub(crate) fn copy_range(bytes: &[u8], start: usize, end: usize) -> (v: Vec<u8>)
    requires
        start <= end <= bytes@.len(),
    ensures
        v@ == bytes@.subrange(start as int, end as int),
{
    let mut v: Vec<u8> = Vec::new();
    v.extend_from_slice(&bytes[start..end]);
    v
}

/// Number of `item`-byte entries that follow a `header`-byte fixed part in a
/// request whose length field is `length` (in 4-byte units).
pub open spec fn list_count(length: u16, header: int, item: int) -> int {
    if length * 4 > header {
        (length * 4 - header) / item
    } else {
        0
    }
}

/// Exec counterpart of `list_count`.
fn count_entries(length: u16, header: usize, item: usize) -> (n: usize)
    requires
        item > 0,
    ensures
        n == list_count(length, header as int, item as int),
{
    let total = (length as usize) * 4;
    if total > header {
        (total - header) / item
    } else {
        0
    }
}

/// `count` little-endian 32-bit values starting at `start`.
fn read_u32_list(bytes: &[u8], start: usize, count: usize) -> (v: Vec<u32>)
    requires
        start + 4 * count <= bytes@.len(),
    ensures
        v@ == Seq::new(count as nat, |i: int| le32_at(bytes@, start + 4 * i)),
{
    let mut v: Vec<u32> = Vec::new();
    let mut i: usize = 0;
    while i < count
        invariant
            i <= count,
            start + 4 * count <= bytes@.len(),
            bytes@.len() == bytes.len(),
            v@ == Seq::new(i as nat, |j: int| le32_at(bytes@, start + 4 * j)),
        decreases count - i,
    {
        v.push(get_le32(bytes, start + 4 * i));
        i = i + 1;
        assert(v@ =~= Seq::new(i as nat, |j: int| le32_at(bytes@, start + 4 * j)));
    }
    v
}

/// The arc encoded at `b[i..i+12]`.
pub open spec fn arc_at(b: Seq<u8>, i: int) -> Arc {
    Arc {
        x: le16_at(b, i) as i16,
        y: le16_at(b, i + 2) as i16,
        width: le16_at(b, i + 4),
        height: le16_at(b, i + 6),
        angle1: le16_at(b, i + 8) as i16,
        angle2: le16_at(b, i + 10) as i16,
    }
}

/// The point encoded at `b[i..i+4]`.
pub open spec fn point_at(b: Seq<u8>, i: int) -> Point {
    Point { x: le16_at(b, i) as i16, y: le16_at(b, i + 2) as i16 }
}

/// The rectangle encoded at `b[i..i+8]`.
pub open spec fn rectangle_at(b: Seq<u8>, i: int) -> Rectangle {
    Rectangle {
        x: le16_at(b, i) as i16,
        y: le16_at(b, i + 2) as i16,
        width: le16_at(b, i + 4),
        height: le16_at(b, i + 6),
    }
}

fn read_arcs(bytes: &[u8], start: usize, count: usize) -> (v: Vec<Arc>)
    requires
        start + 12 * count <= bytes@.len(),
    ensures
        v@ == Seq::new(count as nat, |i: int| arc_at(bytes@, start + 12 * i)),
{
    let mut v: Vec<Arc> = Vec::new();
    let mut i: usize = 0;
    while i < count
        invariant
            i <= count,
            start + 12 * count <= bytes@.len(),
            bytes@.len() == bytes.len(),
            v@ == Seq::new(i as nat, |j: int| arc_at(bytes@, start + 12 * j)),
        decreases count - i,
    {
        let p = start + 12 * i;
        let arc = Arc {
            x: get_le_i16(bytes, p),
            y: get_le_i16(bytes, p + 2),
            width: get_le16(bytes, p + 4),
            height: get_le16(bytes, p + 6),
            angle1: get_le_i16(bytes, p + 8),
            angle2: get_le_i16(bytes, p + 10),
        };
        v.push(arc);
        i = i + 1;
        assert(v@ =~= Seq::new(i as nat, |j: int| arc_at(bytes@, start + 12 * j)));
    }
    v
}

fn read_points(bytes: &[u8], start: usize, count: usize) -> (v: Vec<Point>)
    requires
        start + 4 * count <= bytes@.len(),
    ensures
        v@ == Seq::new(count as nat, |i: int| point_at(bytes@, start + 4 * i)),
{
    let mut v: Vec<Point> = Vec::new();
    let mut i: usize = 0;
    while i < count
        invariant
            i <= count,
            start + 4 * count <= bytes@.len(),
            bytes@.len() == bytes.len(),
            v@ == Seq::new(i as nat, |j: int| point_at(bytes@, start + 4 * j)),
        decreases count - i,
    {
        let p = start + 4 * i;
        v.push(Point { x: get_le_i16(bytes, p), y: get_le_i16(bytes, p + 2) });
        i = i + 1;
        assert(v@ =~= Seq::new(i as nat, |j: int| point_at(bytes@, start + 4 * j)));
    }
    v
}

fn read_rectangles(bytes: &[u8], start: usize, count: usize) -> (v: Vec<Rectangle>)
    requires
        start + 8 * count <= bytes@.len(),
    ensures
        v@ == Seq::new(count as nat, |i: int| rectangle_at(bytes@, start + 8 * i)),
{
    let mut v: Vec<Rectangle> = Vec::new();
    let mut i: usize = 0;
    while i < count
        invariant
            i <= count,
            start + 8 * count <= bytes@.len(),
            bytes@.len() == bytes.len(),
            v@ == Seq::new(i as nat, |j: int| rectangle_at(bytes@, start + 8 * j)),
        decreases count - i,
    {
        let p = start + 8 * i;
        v.push(
            Rectangle {
                x: get_le_i16(bytes, p),
                y: get_le_i16(bytes, p + 2),
                width: get_le16(bytes, p + 4),
                height: get_le16(bytes, p + 6),
            },
        );
        i = i + 1;
        assert(v@ =~= Seq::new(i as nat, |j: int| rectangle_at(bytes@, start + 8 * j)));
    }
    v
}

/// Read a name of `len` bytes at `start` (empty when `len` is 0).
fn read_name(bytes: &[u8], start: usize, len: usize, request: &'static str) -> (r: Result<
    String,
    RequestError,
>)
    requires
        start <= bytes@.len(),
    ensures
        r is Ok <==> (len == 0 || start + len <= bytes@.len()),
        r matches Ok(s) ==> s@ == lossy_text(bytes@.subrange(start as int, start + len)),
        r matches Err(e) ==> e is Truncated,
{
    if len > 0 {
        if len > bytes.len() - start {
            return Err(RequestError::Truncated(request));
        }
        Ok(string_from_utf8_lossy(&bytes[start..start + len]))
    } else {
        proof {
            assert(bytes@.subrange(start as int, start + len).len() == 0);
        }
        Ok(String::new())
    }
}

/// What parsing `b` as a GetGeometry request gives: a request needs its fixed
/// 8 bytes, and every field is read little-endian at its offset.
pub open spec fn get_geometry_parsed(b: Seq<u8>, r: Result<Request, RequestError>) -> bool {
    &&& r is Ok <==> b.len() >= 8
    &&& r matches Err(e) ==> e is TooShort
    &&& r matches Ok(req) ==> {
        &&& req.sequence_number == 0
        &&& req.opcode == b[0]
        &&& req.minor_opcode == None::<u8>
        &&& req.kind matches RequestKind::GetGeometry(k)
        &&& k.opcode == b[0]
        &&& k.unused == b[1]
        &&& k.length == le16_at(b, 2)
        &&& k.drawable == le32_at(b, 4)
    }
}

impl GetGeometryParser {
    /// Parse a GetGeometry request from its wire bytes.
    pub fn parse(bytes: &[u8]) -> (r: Result<Request, RequestError>)
        ensures
            get_geometry_parsed(bytes@, r),
    {
        if bytes.len() < 8 {
            return Err(RequestError::TooShort("GetGeometry"));
        }
        let opcode = bytes[0];
        let unused = bytes[1];
        let length = get_le16(bytes, 2);
        let drawable = get_le32(bytes, 4);
        let request = GetGeometryRequest { opcode, unused, length, drawable };
        Ok(Request {
            kind: RequestKind::GetGeometry(request),
            sequence_number: 0,
            opcode: bytes[0],
            minor_opcode: None,
        })
    }
}

/// What parsing `b` as a GetProperty request gives: a request needs its fixed
/// 24 bytes, and every field is read little-endian at its offset.
pub open spec fn get_property_parsed(b: Seq<u8>, r: Result<Request, RequestError>) -> bool {
    &&& r is Ok <==> b.len() >= 24
    &&& r matches Err(e) ==> e is TooShort
    &&& r matches Ok(req) ==> {
        &&& req.sequence_number == 0
        &&& req.opcode == b[0]
        &&& req.minor_opcode == None::<u8>
        &&& req.kind matches RequestKind::GetProperty(k)
        &&& k.opcode == b[0]
        &&& k.delete == b[1]
        &&& k.length == le16_at(b, 2)
        &&& k.window == le32_at(b, 4)
        &&& k.property == le32_at(b, 8)
        &&& k.property_type == le32_at(b, 12)
        &&& k.long_offset == le32_at(b, 16)
        &&& k.long_length == le32_at(b, 20)
    }
}

impl GetPropertyParser {
    /// Parse a GetProperty request from its wire bytes.
    pub fn parse(bytes: &[u8]) -> (r: Result<Request, RequestError>)
        ensures
            get_property_parsed(bytes@, r),
    {
        if bytes.len() < 24 {
            return Err(RequestError::TooShort("GetProperty"));
        }
        let opcode = bytes[0];
        let delete = bytes[1];
        let length = get_le16(bytes, 2);
        let window = get_le32(bytes, 4);
        let property = get_le32(bytes, 8);
        let property_type = get_le32(bytes, 12);
        let long_offset = get_le32(bytes, 16);
        let long_length = get_le32(bytes, 20);
        let request = GetPropertyRequest { opcode, delete, length, window, property, property_type, long_offset, long_length };
        Ok(Request {
            kind: RequestKind::GetProperty(request),
            sequence_number: 0,
            opcode: bytes[0],
            minor_opcode: None,
        })
    }
}

/// What parsing `b` as a CreatePixmap request gives: a request needs its fixed
/// 16 bytes, and every field is read little-endian at its offset.
pub open spec fn create_pixmap_parsed(b: Seq<u8>, r: Result<Request, RequestError>) -> bool {
    &&& r is Ok <==> b.len() >= 16
    &&& r matches Err(e) ==> e is TooShort
    &&& r matches Ok(req) ==> {
        &&& req.sequence_number == 0
        &&& req.opcode == b[0]
        &&& req.minor_opcode == None::<u8>
        &&& req.kind matches RequestKind::CreatePixmap(k)
        &&& k.opcode == b[0]
        &&& k.depth == b[1]
        &&& k.length == le16_at(b, 2)
        &&& k.pid == le32_at(b, 4)
        &&& k.drawable == le32_at(b, 8)
        &&& k.width == le16_at(b, 12)
        &&& k.height == le16_at(b, 14)
    }
}

impl CreatePixmapParser {
    /// Parse a CreatePixmap request from its wire bytes.
    pub fn parse(bytes: &[u8]) -> (r: Result<Request, RequestError>)
        ensures
            create_pixmap_parsed(bytes@, r),
    {
        if bytes.len() < 16 {
            return Err(RequestError::TooShort("CreatePixmap"));
        }
        let opcode = bytes[0];
        let depth = bytes[1];
        let length = get_le16(bytes, 2);
        let pid = get_le32(bytes, 4);
        let drawable = get_le32(bytes, 8);
        let width = get_le16(bytes, 12);
        let height = get_le16(bytes, 14);
        let request = CreatePixmapRequest { opcode, depth, length, pid, drawable, width, height };
        Ok(Request {
            kind: RequestKind::CreatePixmap(request),
            sequence_number: 0,
            opcode: bytes[0],
            minor_opcode: None,
        })
    }
}

/// What parsing `b` as a FreePixmap request gives: a request needs its fixed
/// 8 bytes, and every field is read little-endian at its offset.
pub open spec fn free_pixmap_parsed(b: Seq<u8>, r: Result<Request, RequestError>) -> bool {
    &&& r is Ok <==> b.len() >= 8
    &&& r matches Err(e) ==> e is TooShort
    &&& r matches Ok(req) ==> {
        &&& req.sequence_number == 0
        &&& req.opcode == b[0]
        &&& req.minor_opcode == None::<u8>
        &&& req.kind matches RequestKind::FreePixmap(k)
        &&& k.opcode == b[0]
        &&& k.unused == b[1]
        &&& k.length == le16_at(b, 2)
        &&& k.pixmap == le32_at(b, 4)
    }
}

impl FreePixmapParser {
    /// Parse a FreePixmap request from its wire bytes.
    pub fn parse(bytes: &[u8]) -> (r: Result<Request, RequestError>)
        ensures
            free_pixmap_parsed(bytes@, r),
    {
        if bytes.len() < 8 {
            return Err(RequestError::TooShort("FreePixmap"));
        }
        let opcode = bytes[0];
        let unused = bytes[1];
        let length = get_le16(bytes, 2);
        let pixmap = get_le32(bytes, 4);
        let request = FreePixmapRequest { opcode, unused, length, pixmap };
        Ok(Request {
            kind: RequestKind::FreePixmap(request),
            sequence_number: 0,
            opcode: bytes[0],
            minor_opcode: None,
        })
    }
}

/// What parsing `b` as a GetInputFocus request gives: a request needs its fixed
/// 4 bytes, and every field is read little-endian at its offset.
pub open spec fn get_input_focus_parsed(b: Seq<u8>, r: Result<Request, RequestError>) -> bool {
    &&& r is Ok <==> b.len() >= 4
    &&& r matches Err(e) ==> e is TooShort
    &&& r matches Ok(req) ==> {
        &&& req.sequence_number == 0
        &&& req.opcode == b[0]
        &&& req.minor_opcode == None::<u8>
        &&& req.kind matches RequestKind::GetInputFocus(k)
        &&& k.opcode == b[0]
        &&& k.unused == b[1]
        &&& k.length == le16_at(b, 2)
    }
}

impl GetInputFocusParser {
    /// Parse a GetInputFocus request from its wire bytes.
    pub fn parse(bytes: &[u8]) -> (r: Result<Request, RequestError>)
        ensures
            get_input_focus_parsed(bytes@, r),
    {
        if bytes.len() < 4 {
            return Err(RequestError::TooShort("GetInputFocus"));
        }
        let opcode = bytes[0];
        let unused = bytes[1];
        let length = get_le16(bytes, 2);
        let request = GetInputFocusRequest { opcode, unused, length };
        Ok(Request {
            kind: RequestKind::GetInputFocus(request),
            sequence_number: 0,
            opcode: bytes[0],
            minor_opcode: None,
        })
    }
}

/// What parsing `b` as a CopyArea request gives: a request needs its fixed
/// 28 bytes, and every field is read little-endian at its offset.
pub open spec fn copy_area_parsed(b: Seq<u8>, r: Result<Request, RequestError>) -> bool {
    &&& r is Ok <==> b.len() >= 28
    &&& r matches Err(e) ==> e is TooShort
    &&& r matches Ok(req) ==> {
        &&& req.sequence_number == 0
        &&& req.opcode == b[0]
        &&& req.minor_opcode == None::<u8>
        &&& req.kind matches RequestKind::CopyArea(k)
        &&& k.opcode == b[0]
        &&& k.unused == b[1]
        &&& k.length == le16_at(b, 2)
        &&& k.src_drawable == le32_at(b, 4)
        &&& k.dst_drawable == le32_at(b, 8)
        &&& k.gc == le32_at(b, 12)
        &&& k.src_x == le16_at(b, 16) as i16
        &&& k.src_y == le16_at(b, 18) as i16
        &&& k.dst_x == le16_at(b, 20) as i16
        &&& k.dst_y == le16_at(b, 22) as i16
        &&& k.width == le16_at(b, 24)
        &&& k.height == le16_at(b, 26)
    }
}

impl CopyAreaParser {
    /// Parse a CopyArea request from its wire bytes.
    pub fn parse(bytes: &[u8]) -> (r: Result<Request, RequestError>)
        ensures
            copy_area_parsed(bytes@, r),
    {
        if bytes.len() < 28 {
            return Err(RequestError::TooShort("CopyArea"));
        }
        let opcode = bytes[0];
        let unused = bytes[1];
        let length = get_le16(bytes, 2);
        let src_drawable = get_le32(bytes, 4);
        let dst_drawable = get_le32(bytes, 8);
        let gc = get_le32(bytes, 12);
        let src_x = get_le_i16(bytes, 16);
        let src_y = get_le_i16(bytes, 18);
        let dst_x = get_le_i16(bytes, 20);
        let dst_y = get_le_i16(bytes, 22);
        let width = get_le16(bytes, 24);
        let height = get_le16(bytes, 26);
        let request = CopyAreaRequest { opcode, unused, length, src_drawable, dst_drawable, gc, src_x, src_y, dst_x, dst_y, width, height };
        Ok(Request {
            kind: RequestKind::CopyArea(request),
            sequence_number: 0,
            opcode: bytes[0],
            minor_opcode: None,
        })
    }
}

/// What parsing `b` as a DestroyWindow request gives: a request needs its fixed
/// 8 bytes, and every field is read little-endian at its offset.
pub open spec fn destroy_window_parsed(b: Seq<u8>, r: Result<Request, RequestError>) -> bool {
    &&& r is Ok <==> b.len() >= 8
    &&& r matches Err(e) ==> e is TooShort
    &&& r matches Ok(req) ==> {
        &&& req.sequence_number == 0
        &&& req.opcode == b[0]
        &&& req.minor_opcode == None::<u8>
        &&& req.kind matches RequestKind::DestroyWindow(k)
        &&& k.opcode == b[0]
        &&& k.unused == b[1]
        &&& k.length == le16_at(b, 2)
        &&& k.window == le32_at(b, 4)
    }
}

impl DestroyWindowParser {
    /// Parse a DestroyWindow request from its wire bytes.
    pub fn parse(bytes: &[u8]) -> (r: Result<Request, RequestError>)
        ensures
            destroy_window_parsed(bytes@, r),
    {
        if bytes.len() < 8 {
            return Err(RequestError::TooShort("DestroyWindow"));
        }
        let opcode = bytes[0];
        let unused = bytes[1];
        let length = get_le16(bytes, 2);
        let window = get_le32(bytes, 4);
        let request = DestroyWindowRequest { opcode, unused, length, window };
        Ok(Request {
            kind: RequestKind::DestroyWindow(request),
            sequence_number: 0,
            opcode: bytes[0],
            minor_opcode: None,
        })
    }
}

/// What parsing `b` as a MapWindow request gives: a request needs its fixed
/// 8 bytes, and every field is read little-endian at its offset.
pub open spec fn map_window_parsed(b: Seq<u8>, r: Result<Request, RequestError>) -> bool {
    &&& r is Ok <==> b.len() >= 8
    &&& r matches Err(e) ==> e is TooShort
    &&& r matches Ok(req) ==> {
        &&& req.sequence_number == 0
        &&& req.opcode == b[0]
        &&& req.minor_opcode == None::<u8>
        &&& req.kind matches RequestKind::MapWindow(k)
        &&& k.opcode == b[0]
        &&& k.unused == b[1]
        &&& k.length == le16_at(b, 2)
        &&& k.window == le32_at(b, 4)
    }
}

impl MapWindowParser {
    /// Parse a MapWindow request from its wire bytes.
    pub fn parse(bytes: &[u8]) -> (r: Result<Request, RequestError>)
        ensures
            map_window_parsed(bytes@, r),
    {
        if bytes.len() < 8 {
            return Err(RequestError::TooShort("MapWindow"));
        }
        let opcode = bytes[0];
        let unused = bytes[1];
        let length = get_le16(bytes, 2);
        let window = get_le32(bytes, 4);
        let request = MapWindowRequest { opcode, unused, length, window };
        Ok(Request {
            kind: RequestKind::MapWindow(request),
            sequence_number: 0,
            opcode: bytes[0],
            minor_opcode: None,
        })
    }
}

/// What parsing `b` as a UnmapWindow request gives: a request needs its fixed
/// 8 bytes, and every field is read little-endian at its offset.
pub open spec fn unmap_window_parsed(b: Seq<u8>, r: Result<Request, RequestError>) -> bool {
    &&& r is Ok <==> b.len() >= 8
    &&& r matches Err(e) ==> e is TooShort
    &&& r matches Ok(req) ==> {
        &&& req.sequence_number == 0
        &&& req.opcode == b[0]
        &&& req.minor_opcode == None::<u8>
        &&& req.kind matches RequestKind::UnmapWindow(k)
        &&& k.opcode == b[0]
        &&& k.unused == b[1]
        &&& k.length == le16_at(b, 2)
        &&& k.window == le32_at(b, 4)
    }
}

impl UnmapWindowParser {
    /// Parse a UnmapWindow request from its wire bytes.
    pub fn parse(bytes: &[u8]) -> (r: Result<Request, RequestError>)
        ensures
            unmap_window_parsed(bytes@, r),
    {
        if bytes.len() < 8 {
            return Err(RequestError::TooShort("UnmapWindow"));
        }
        let opcode = bytes[0];
        let unused = bytes[1];
        let length = get_le16(bytes, 2);
        let window = get_le32(bytes, 4);
        let request = UnmapWindowRequest { opcode, unused, length, window };
        Ok(Request {
            kind: RequestKind::UnmapWindow(request),
            sequence_number: 0,
            opcode: bytes[0],
            minor_opcode: None,
        })
    }
}

/// What parsing `b` as a ClearArea request gives: a request needs its fixed
/// 16 bytes, and every field is read little-endian at its offset.
pub open spec fn clear_area_parsed(b: Seq<u8>, r: Result<Request, RequestError>) -> bool {
    &&& r is Ok <==> b.len() >= 16
    &&& r matches Err(e) ==> e is TooShort
    &&& r matches Ok(req) ==> {
        &&& req.sequence_number == 0
        &&& req.opcode == b[0]
        &&& req.minor_opcode == None::<u8>
        &&& req.kind matches RequestKind::ClearArea(k)
        &&& k.opcode == b[0]
        &&& k.exposures == b[1]
        &&& k.length == le16_at(b, 2)
        &&& k.window == le32_at(b, 4)
        &&& k.x == le16_at(b, 8) as i16
        &&& k.y == le16_at(b, 10) as i16
        &&& k.width == le16_at(b, 12)
        &&& k.height == le16_at(b, 14)
    }
}

impl ClearAreaParser {
    /// Parse a ClearArea request from its wire bytes.
    pub fn parse(bytes: &[u8]) -> (r: Result<Request, RequestError>)
        ensures
            clear_area_parsed(bytes@, r),
    {
        if bytes.len() < 16 {
            return Err(RequestError::TooShort("ClearArea"));
        }
        let opcode = bytes[0];
        let exposures = bytes[1];
        let length = get_le16(bytes, 2);
        let window = get_le32(bytes, 4);
        let x = get_le_i16(bytes, 8);
        let y = get_le_i16(bytes, 10);
        let width = get_le16(bytes, 12);
        let height = get_le16(bytes, 14);
        let request = ClearAreaRequest { opcode, exposures, length, window, x, y, width, height };
        Ok(Request {
            kind: RequestKind::ClearArea(request),
            sequence_number: 0,
            opcode: bytes[0],
            minor_opcode: None,
        })
    }
}

/// What parsing `b` as a FreeGC request gives: a request needs its fixed
/// 8 bytes, and every field is read little-endian at its offset.
pub open spec fn free_g_c_parsed(b: Seq<u8>, r: Result<Request, RequestError>) -> bool {
    &&& r is Ok <==> b.len() >= 8
    &&& r matches Err(e) ==> e is TooShort
    &&& r matches Ok(req) ==> {
        &&& req.sequence_number == 0
        &&& req.opcode == b[0]
        &&& req.minor_opcode == None::<u8>
        &&& req.kind matches RequestKind::FreeGC(k)
        &&& k.opcode == b[0]
        &&& k.unused == b[1]
        &&& k.length == le16_at(b, 2)
        &&& k.gc == le32_at(b, 4)
    }
}

impl FreeGCParser {
    /// Parse a FreeGC request from its wire bytes.
    pub fn parse(bytes: &[u8]) -> (r: Result<Request, RequestError>)
        ensures
            free_g_c_parsed(bytes@, r),
    {
        if bytes.len() < 8 {
            return Err(RequestError::TooShort("FreeGC"));
        }
        let opcode = bytes[0];
        let unused = bytes[1];
        let length = get_le16(bytes, 2);
        let gc = get_le32(bytes, 4);
        let request = FreeGCRequest { opcode, unused, length, gc };
        Ok(Request {
            kind: RequestKind::FreeGC(request),
            sequence_number: 0,
            opcode: bytes[0],
            minor_opcode: None,
        })
    }
}

/// What parsing `b` as a CreateGlyphCursor request gives: a request needs its fixed
/// 32 bytes, and every field is read little-endian at its offset.
pub open spec fn create_glyph_cursor_parsed(b: Seq<u8>, r: Result<Request, RequestError>) -> bool {
    &&& r is Ok <==> b.len() >= 32
    &&& r matches Err(e) ==> e is TooShort
    &&& r matches Ok(req) ==> {
        &&& req.sequence_number == 0
        &&& req.opcode == b[0]
        &&& req.minor_opcode == None::<u8>
        &&& req.kind matches RequestKind::CreateGlyphCursor(k)
        &&& k.opcode == b[0]
        &&& k.unused == b[1]
        &&& k.length == le16_at(b, 2)
        &&& k.cid == le32_at(b, 4)
        &&& k.source_font == le32_at(b, 8)
        &&& k.mask_font == le32_at(b, 12)
        &&& k.source_char == le16_at(b, 16)
        &&& k.mask_char == le16_at(b, 18)
        &&& k.fore_red == le16_at(b, 20)
        &&& k.fore_green == le16_at(b, 22)
        &&& k.fore_blue == le16_at(b, 24)
        &&& k.back_red == le16_at(b, 26)
        &&& k.back_green == le16_at(b, 28)
        &&& k.back_blue == le16_at(b, 30)
    }
}

impl CreateGlyphCursorParser {
    /// Parse a CreateGlyphCursor request from its wire bytes.
    pub fn parse(bytes: &[u8]) -> (r: Result<Request, RequestError>)
        ensures
            create_glyph_cursor_parsed(bytes@, r),
    {
        if bytes.len() < 32 {
            return Err(RequestError::TooShort("CreateGlyphCursor"));
        }
        let opcode = bytes[0];
        let unused = bytes[1];
        let length = get_le16(bytes, 2);
        let cid = get_le32(bytes, 4);
        let source_font = get_le32(bytes, 8);
        let mask_font = get_le32(bytes, 12);
        let source_char = get_le16(bytes, 16);
        let mask_char = get_le16(bytes, 18);
        let fore_red = get_le16(bytes, 20);
        let fore_green = get_le16(bytes, 22);
        let fore_blue = get_le16(bytes, 24);
        let back_red = get_le16(bytes, 26);
        let back_green = get_le16(bytes, 28);
        let back_blue = get_le16(bytes, 30);
        let request = CreateGlyphCursorRequest { opcode, unused, length, cid, source_font, mask_font, source_char, mask_char, fore_red, fore_green, fore_blue, back_red, back_green, back_blue };
        Ok(Request {
            kind: RequestKind::CreateGlyphCursor(request),
            sequence_number: 0,
            opcode: bytes[0],
            minor_opcode: None,
        })
    }
}

/// What parsing `b` as a NoOperation request gives: a request needs its fixed
/// 4 bytes, and every field is read little-endian at its offset.
pub open spec fn no_operation_parsed(b: Seq<u8>, r: Result<Request, RequestError>) -> bool {
    &&& r is Ok <==> b.len() >= 4
    &&& r matches Err(e) ==> e is TooShort
    &&& r matches Ok(req) ==> {
        &&& req.sequence_number == 0
        &&& req.opcode == b[0]
        &&& req.minor_opcode == None::<u8>
        &&& req.kind matches RequestKind::NoOperation(k)
        &&& k.opcode == b[0]
        &&& k.unused == b[1]
        &&& k.length == le16_at(b, 2)
    }
}

impl NoOperationParser {
    /// Parse a NoOperation request from its wire bytes.
    pub fn parse(bytes: &[u8]) -> (r: Result<Request, RequestError>)
        ensures
            no_operation_parsed(bytes@, r),
    {
        if bytes.len() < 4 {
            return Err(RequestError::TooShort("NoOperation"));
        }
        let opcode = bytes[0];
        let unused = bytes[1];
        let length = get_le16(bytes, 2);
        let request = NoOperationRequest { opcode, unused, length };
        Ok(Request {
            kind: RequestKind::NoOperation(request),
            sequence_number: 0,
            opcode: bytes[0],
            minor_opcode: None,
        })
    }
}

/// What parsing `b` as a RandrQueryVersion request gives: a request needs its fixed
/// 12 bytes, and every field is read little-endian at its offset.
pub open spec fn randr_query_version_parsed(b: Seq<u8>, r: Result<Request, RequestError>) -> bool {
    &&& r is Ok <==> b.len() >= 12
    &&& r matches Err(e) ==> e is TooShort
    &&& r matches Ok(req) ==> {
        &&& req.sequence_number == 0
        &&& req.opcode == b[0]
        &&& req.minor_opcode == Some(b[1])
        &&& req.kind matches RequestKind::RandrQueryVersion(k)
        &&& k.major_version == le32_at(b, 4)
        &&& k.minor_version == le32_at(b, 8)
    }
}

impl RandrQueryVersionParser {
    /// Parse a RandrQueryVersion request from its wire bytes.
    pub fn parse(bytes: &[u8]) -> (r: Result<Request, RequestError>)
        ensures
            randr_query_version_parsed(bytes@, r),
    {
        if bytes.len() < 12 {
            return Err(RequestError::TooShort("RandrQueryVersion"));
        }
        let major_version = get_le32(bytes, 4);
        let minor_version = get_le32(bytes, 8);
        let request = RandrQueryVersionRequest { major_version, minor_version };
        Ok(Request {
            kind: RequestKind::RandrQueryVersion(request),
            sequence_number: 0,
            opcode: bytes[0],
            minor_opcode: Some(bytes[1]),
        })
    }
}

/// What parsing `b` as a RandrGetScreenResources request gives: a request needs its fixed
/// 8 bytes, and every field is read little-endian at its offset.
pub open spec fn randr_get_screen_resources_parsed(b: Seq<u8>, r: Result<Request, RequestError>) -> bool {
    &&& r is Ok <==> b.len() >= 8
    &&& r matches Err(e) ==> e is TooShort
    &&& r matches Ok(req) ==> {
        &&& req.sequence_number == 0
        &&& req.opcode == b[0]
        &&& req.minor_opcode == Some(RandrOpcode::GetScreenResources.spec_value())
        &&& req.kind matches RequestKind::RandrGetScreenResources(k)
        &&& k.window == le32_at(b, 4)
    }
}

impl RandrGetScreenResourcesParser {
    /// Parse a RandrGetScreenResources request from its wire bytes.
    pub fn parse(bytes: &[u8]) -> (r: Result<Request, RequestError>)
        ensures
            randr_get_screen_resources_parsed(bytes@, r),
    {
        if bytes.len() < 8 {
            return Err(RequestError::TooShort("RandrGetScreenResources"));
        }
        let window = get_le32(bytes, 4);
        let request = RandrGetScreenResourcesRequest { window };
        Ok(Request {
            kind: RequestKind::RandrGetScreenResources(request),
            sequence_number: 0,
            opcode: bytes[0],
            minor_opcode: Some(RandrOpcode::GetScreenResources.to_u8()),
        })
    }
}

/// What parsing `b` as a RandrGetOutputInfo request gives: a request needs its fixed
/// 12 bytes, and every field is read little-endian at its offset.
pub open spec fn randr_get_output_info_parsed(b: Seq<u8>, r: Result<Request, RequestError>) -> bool {
    &&& r is Ok <==> b.len() >= 12
    &&& r matches Err(e) ==> e is TooShort
    &&& r matches Ok(req) ==> {
        &&& req.sequence_number == 0
        &&& req.opcode == b[0]
        &&& req.minor_opcode == Some(RandrOpcode::GetOutputInfo.spec_value())
        &&& req.kind matches RequestKind::RandrGetOutputInfo(k)
        &&& k.output == le32_at(b, 4)
        &&& k.config_timestamp == le32_at(b, 8)
    }
}

impl RandrGetOutputInfoParser {
    /// Parse a RandrGetOutputInfo request from its wire bytes.
    pub fn parse(bytes: &[u8]) -> (r: Result<Request, RequestError>)
        ensures
            randr_get_output_info_parsed(bytes@, r),
    {
        if bytes.len() < 12 {
            return Err(RequestError::TooShort("RandrGetOutputInfo"));
        }
        let output = get_le32(bytes, 4);
        let config_timestamp = get_le32(bytes, 8);
        let request = RandrGetOutputInfoRequest { output, config_timestamp };
        Ok(Request {
            kind: RequestKind::RandrGetOutputInfo(request),
            sequence_number: 0,
            opcode: bytes[0],
            minor_opcode: Some(RandrOpcode::GetOutputInfo.to_u8()),
        })
    }
}

/// What parsing `b` as a RandrGetCrtcInfo request gives: a request needs its fixed
/// 12 bytes, and every field is read little-endian at its offset.
pub open spec fn randr_get_crtc_info_parsed(b: Seq<u8>, r: Result<Request, RequestError>) -> bool {
    &&& r is Ok <==> b.len() >= 12
    &&& r matches Err(e) ==> e is TooShort
    &&& r matches Ok(req) ==> {
        &&& req.sequence_number == 0
        &&& req.opcode == b[0]
        &&& req.minor_opcode == Some(RandrOpcode::GetCrtcInfo.spec_value())
        &&& req.kind matches RequestKind::RandrGetCrtcInfo(k)
        &&& k.crtc == le32_at(b, 4)
        &&& k.config_timestamp == le32_at(b, 8)
    }
}

impl RandrGetCrtcInfoParser {
    /// Parse a RandrGetCrtcInfo request from its wire bytes.
    pub fn parse(bytes: &[u8]) -> (r: Result<Request, RequestError>)
        ensures
            randr_get_crtc_info_parsed(bytes@, r),
    {
        if bytes.len() < 12 {
            return Err(RequestError::TooShort("RandrGetCrtcInfo"));
        }
        let crtc = get_le32(bytes, 4);
        let config_timestamp = get_le32(bytes, 8);
        let request = RandrGetCrtcInfoRequest { crtc, config_timestamp };
        Ok(Request {
            kind: RequestKind::RandrGetCrtcInfo(request),
            sequence_number: 0,
            opcode: bytes[0],
            minor_opcode: Some(RandrOpcode::GetCrtcInfo.to_u8()),
        })
    }
}

/// What parsing `b` as a RandrGetScreenSizeRange request gives: a request needs its fixed
/// 8 bytes, and every field is read little-endian at its offset.
pub open spec fn randr_get_screen_size_range_parsed(b: Seq<u8>, r: Result<Request, RequestError>) -> bool {
    &&& r is Ok <==> b.len() >= 8
    &&& r matches Err(e) ==> e is TooShort
    &&& r matches Ok(req) ==> {
        &&& req.sequence_number == 0
        &&& req.opcode == b[0]
        &&& req.minor_opcode == Some(RandrOpcode::GetScreenSizeRange.spec_value())
        &&& req.kind matches RequestKind::RandrGetScreenSizeRange(k)
        &&& k.window == le32_at(b, 4)
    }
}

impl RandrGetScreenSizeRangeParser {
    /// Parse a RandrGetScreenSizeRange request from its wire bytes.
    pub fn parse(bytes: &[u8]) -> (r: Result<Request, RequestError>)
        ensures
            randr_get_screen_size_range_parsed(bytes@, r),
    {
        if bytes.len() < 8 {
            return Err(RequestError::TooShort("RandrGetScreenSizeRange"));
        }
        let window = get_le32(bytes, 4);
        let request = RandrGetScreenSizeRangeRequest { window };
        Ok(Request {
            kind: RequestKind::RandrGetScreenSizeRange(request),
            sequence_number: 0,
            opcode: bytes[0],
            minor_opcode: Some(RandrOpcode::GetScreenSizeRange.to_u8()),
        })
    }
}

/// What parsing `b` as a RenderQueryVersion request gives: a request needs its fixed
/// 12 bytes, and every field is read little-endian at its offset.
pub open spec fn render_query_version_parsed(b: Seq<u8>, r: Result<Request, RequestError>) -> bool {
    &&& r is Ok <==> b.len() >= 12
    &&& r matches Err(e) ==> e is TooShort
    &&& r matches Ok(req) ==> {
        &&& req.sequence_number == 0
        &&& req.opcode == b[0]
        &&& req.minor_opcode == Some(b[1])
        &&& req.kind matches RequestKind::RenderQueryVersion(k)
        &&& k.client_major_version == le32_at(b, 4)
        &&& k.client_minor_version == le32_at(b, 8)
    }
}

impl RenderQueryVersionParser {
    /// Parse a RenderQueryVersion request from its wire bytes.
    pub fn parse(bytes: &[u8]) -> (r: Result<Request, RequestError>)
        ensures
            render_query_version_parsed(bytes@, r),
    {
        if bytes.len() < 12 {
            return Err(RequestError::TooShort("RenderQueryVersion"));
        }
        let client_major_version = get_le32(bytes, 4);
        let client_minor_version = get_le32(bytes, 8);
        let request = RenderQueryVersionRequest { client_major_version, client_minor_version };
        Ok(Request {
            kind: RequestKind::RenderQueryVersion(request),
            sequence_number: 0,
            opcode: bytes[0],
            minor_opcode: Some(bytes[1]),
        })
    }
}

/// What parsing `b` as a RenderCreateSolidFill request gives: a request needs its fixed
/// 16 bytes, and every field is read little-endian at its offset.
pub open spec fn render_create_solid_fill_parsed(b: Seq<u8>, r: Result<Request, RequestError>) -> bool {
    &&& r is Ok <==> b.len() >= 16
    &&& r matches Err(e) ==> e is TooShort
    &&& r matches Ok(req) ==> {
        &&& req.sequence_number == 0
        &&& req.opcode == b[0]
        &&& req.minor_opcode == Some(b[1])
        &&& req.kind matches RequestKind::RenderCreateSolidFill(k)
        &&& k.pid == le32_at(b, 4)
        &&& k.red == le16_at(b, 8)
        &&& k.green == le16_at(b, 10)
        &&& k.blue == le16_at(b, 12)
        &&& k.alpha == le16_at(b, 14)
    }
}

impl RenderCreateSolidFillParser {
    /// Parse a RenderCreateSolidFill request from its wire bytes.
    pub fn parse(bytes: &[u8]) -> (r: Result<Request, RequestError>)
        ensures
            render_create_solid_fill_parsed(bytes@, r),
    {
        if bytes.len() < 16 {
            return Err(RequestError::TooShort("RenderCreateSolidFill"));
        }
        let pid = get_le32(bytes, 4);
        let red = get_le16(bytes, 8);
        let green = get_le16(bytes, 10);
        let blue = get_le16(bytes, 12);
        let alpha = get_le16(bytes, 14);
        let request = RenderCreateSolidFillRequest { pid, red, green, blue, alpha };
        Ok(Request {
            kind: RequestKind::RenderCreateSolidFill(request),
            sequence_number: 0,
            opcode: bytes[0],
            minor_opcode: Some(bytes[1]),
        })
    }
}

/// What parsing `b` as an InternAtom request gives: the 8-byte fixed part, then
/// a name of `name_len` bytes.
pub open spec fn intern_atom_parsed(b: Seq<u8>, r: Result<Request, RequestError>) -> bool {
    let name_len = le16_at(b, 4) as int;
    &&& r is Ok <==> b.len() >= 8 && (name_len == 0 || 8 + name_len <= b.len())
    &&& r matches Err(e) ==> (e is TooShort || e is Truncated)
    &&& r matches Ok(req) ==> {
        &&& req.sequence_number == 0
        &&& req.opcode == b[0]
        &&& req.minor_opcode == None::<u8>
        &&& req.kind matches RequestKind::InternAtom(k)
        &&& k.opcode == b[0]
        &&& k.only_if_exists == b[1]
        &&& k.length == le16_at(b, 2)
        &&& k.name_len == le16_at(b, 4)
        &&& k.unused == le16_at(b, 6)
        &&& k.atom_name@ == lossy_text(b.subrange(8, 8 + name_len))
    }
}

impl InternAtomParser {
    /// Parse an InternAtom request from its wire bytes.
    pub fn parse(bytes: &[u8]) -> (r: Result<Request, RequestError>)
        ensures
            intern_atom_parsed(bytes@, r),
    {
        if bytes.len() < 8 {
            return Err(RequestError::TooShort("InternAtom"));
        }
        let opcode = bytes[0];
        let only_if_exists = bytes[1];
        let length = get_le16(bytes, 2);
        let name_len = get_le16(bytes, 4);
        let unused = get_le16(bytes, 6);
        let atom_name = read_name(bytes, 8, name_len as usize, "InternAtom")?;
        let request = InternAtomRequest { opcode, only_if_exists, length, name_len, unused, atom_name };
        Ok(Request {
            kind: RequestKind::InternAtom(request),
            sequence_number: 0,
            opcode,
            minor_opcode: None,
        })
    }
}

/// What parsing `b` as an OpenFont request gives: the 12-byte fixed part, then
/// a name of `name_len` bytes.
pub open spec fn open_font_parsed(b: Seq<u8>, r: Result<Request, RequestError>) -> bool {
    let name_len = le16_at(b, 8) as int;
    &&& r is Ok <==> b.len() >= 12 && (name_len == 0 || 12 + name_len <= b.len())
    &&& r matches Err(e) ==> (e is TooShort || e is Truncated)
    &&& r matches Ok(req) ==> {
        &&& req.sequence_number == 0
        &&& req.opcode == b[0]
        &&& req.minor_opcode == None::<u8>
        &&& req.kind matches RequestKind::OpenFont(k)
        &&& k.opcode == b[0]
        &&& k.unused == b[1]
        &&& k.length == le16_at(b, 2)
        &&& k.fid == le32_at(b, 4)
        &&& k.name_len == le16_at(b, 8)
        &&& k.unused2 == le16_at(b, 10)
        &&& k.name@ == lossy_text(b.subrange(12, 12 + name_len))
    }
}

impl OpenFontParser {
    /// Parse an OpenFont request from its wire bytes.
    pub fn parse(bytes: &[u8]) -> (r: Result<Request, RequestError>)
        ensures
            open_font_parsed(bytes@, r),
    {
        if bytes.len() < 12 {
            return Err(RequestError::TooShort("OpenFont"));
        }
        let opcode = bytes[0];
        let unused = bytes[1];
        let length = get_le16(bytes, 2);
        let fid = get_le32(bytes, 4);
        let name_len = get_le16(bytes, 8);
        let unused2 = get_le16(bytes, 10);
        let name = read_name(bytes, 12, name_len as usize, "OpenFont")?;
        let request = OpenFontRequest { opcode, unused, length, fid, name_len, unused2, name };
        Ok(Request {
            kind: RequestKind::OpenFont(request),
            sequence_number: 0,
            opcode,
            minor_opcode: None,
        })
    }
}

/// What parsing `b` as a QueryExtension request gives: the 8-byte fixed part,
/// then a name of `name_len` bytes.
pub open spec fn query_extension_parsed(b: Seq<u8>, r: Result<Request, RequestError>) -> bool {
    let name_len = le16_at(b, 4) as int;
    &&& r is Ok <==> b.len() >= 8 && (name_len == 0 || 8 + name_len <= b.len())
    &&& r matches Err(e) ==> (e is TooShort || e is Truncated)
    &&& r matches Ok(req) ==> {
        &&& req.sequence_number == 0
        &&& req.opcode == b[0]
        &&& req.minor_opcode == None::<u8>
        &&& req.kind matches RequestKind::QueryExtension(k)
        &&& k.opcode == b[0]
        &&& k.unused == b[1]
        &&& k.length == le16_at(b, 2)
        &&& k.name_len == le16_at(b, 4)
        &&& k.unused2 == le16_at(b, 6)
        &&& k.name@ == lossy_text(b.subrange(8, 8 + name_len))
    }
}

impl QueryExtensionParser {
    /// Parse a QueryExtension request from its wire bytes.
    pub fn parse(bytes: &[u8]) -> (r: Result<Request, RequestError>)
        ensures
            query_extension_parsed(bytes@, r),
    {
        if bytes.len() < 8 {
            return Err(RequestError::TooShort("QueryExtension"));
        }
        let opcode = bytes[0];
        let unused = bytes[1];
        let length = get_le16(bytes, 2);
        let name_len = get_le16(bytes, 4);
        let unused2 = get_le16(bytes, 6);
        let name = read_name(bytes, 8, name_len as usize, "QueryExtension")?;
        let request = QueryExtensionRequest { opcode, unused, length, name_len, unused2, name };
        Ok(Request {
            kind: RequestKind::QueryExtension(request),
            sequence_number: 0,
            opcode,
            minor_opcode: None,
        })
    }
}

/// What parsing `b` as a BIG-REQUESTS Enable request gives.
pub open spec fn big_requests_parsed(b: Seq<u8>, r: Result<Request, RequestError>) -> bool {
    &&& r is Ok <==> b.len() >= 4
    &&& r matches Err(e) ==> e is TooShort
    &&& r matches Ok(req) ==> {
        &&& req.sequence_number == 0
        &&& req.opcode == b[0]
        &&& req.minor_opcode == None::<u8>
        &&& req.kind matches RequestKind::BigRequests(k)
        &&& k.opcode == b[0]
        &&& k.unused == b[1]
        &&& k.length == le16_at(b, 2) as u32
        &&& k.request_data@.len() == 0
    }
}

impl BigRequestsParser {
    /// Parse a BIG-REQUESTS Enable request from its wire bytes.
    pub fn parse(bytes: &[u8]) -> (r: Result<Request, RequestError>)
        ensures
            big_requests_parsed(bytes@, r),
    {
        if bytes.len() < 4 {
            return Err(RequestError::TooShort("BigRequests"));
        }
        let opcode = bytes[0];
        let unused = bytes[1];
        let length = get_le16(bytes, 2);
        let request = BigRequestsRequest {
            opcode,
            unused,
            length: length as u32,
            request_data: Vec::new(),
        };
        Ok(Request {
            kind: RequestKind::BigRequests(request),
            sequence_number: 0,
            opcode,
            minor_opcode: None,
        })
    }
}

/// Bytes per unit of a property of the given format (0 for an invalid format).
pub open spec fn property_unit(format: u8) -> int {
    if format == 8 {
        1
    } else if format == 16 {
        2
    } else if format == 32 {
        4
    } else {
        0
    }
}

/// What parsing `b` as a ChangeProperty request gives: the 24-byte fixed part,
/// then `data_len` units of the request's format.
pub open spec fn change_property_parsed(b: Seq<u8>, r: Result<Request, RequestError>) -> bool {
    let byte_len = le32_at(b, 20) * property_unit(b[16]);
    &&& r is Ok <==> b.len() >= 24 && property_unit(b[16]) > 0 && 24 + byte_len <= b.len()
    &&& r matches Err(e) ==> {
        ||| e is TooShort && b.len() < 24
        ||| e == RequestError::InvalidFormat(b[16]) && b.len() >= 24
        ||| e is Truncated
    }
    &&& r matches Ok(req) ==> {
        &&& req.sequence_number == 0
        &&& req.opcode == b[0]
        &&& req.minor_opcode == None::<u8>
        &&& req.kind matches RequestKind::ChangeProperty(k)
        &&& k.opcode == b[0]
        &&& k.mode == b[1]
        &&& k.length == le16_at(b, 2)
        &&& k.window == le32_at(b, 4)
        &&& k.property == le32_at(b, 8)
        &&& k.property_type == le32_at(b, 12)
        &&& k.format == b[16]
        &&& k.data@ == b.subrange(24, 24 + byte_len)
    }
}

/// A ChangeProperty request is accepted only in format 8, 16 or 32, and its
/// data is exactly the `data_len` units that follow the 24-byte fixed part:
/// one byte per unit in format 8, two in format 16, four in format 32. A
/// request whose bytes end before those units do is refused.
pub proof fn lemma_change_property_units(b: Seq<u8>, r: Result<Request, RequestError>)
    requires
        change_property_parsed(b, r),
        b.len() >= 24,
    ensures
        ({
            let n = le32_at(b, 20) as int;
            &&& r is Ok ==> b[16] == 8 || b[16] == 16 || b[16] == 32
            &&& b[16] == 8 ==> (r is Ok <==> 24 + n <= b.len())
            &&& b[16] == 16 ==> (r is Ok <==> 24 + 2 * n <= b.len())
            &&& b[16] == 32 ==> (r is Ok <==> 24 + 4 * n <= b.len())
            &&& r matches Ok(req) ==> req.kind matches RequestKind::ChangeProperty(k) && k.format
                == b[16] && {
                &&& k.format == 8 ==> k.data@ == b.subrange(24, 24 + n) && k.data@.len() == n
                &&& k.format == 16 ==> k.data@ == b.subrange(24, 24 + 2 * n) && k.data@.len() == 2
                    * n
                &&& k.format == 32 ==> k.data@ == b.subrange(24, 24 + 4 * n) && k.data@.len() == 4
                    * n
            }
        }),
{
}

impl ChangePropertyParser {
    /// Parse a ChangeProperty request from its wire bytes.
    pub fn parse(bytes: &[u8]) -> (r: Result<Request, RequestError>)
        ensures
            change_property_parsed(bytes@, r),
    {
        if bytes.len() < 24 {
            return Err(RequestError::TooShort("ChangeProperty"));
        }
        let opcode = bytes[0];
        let mode = bytes[1];
        let length = get_le16(bytes, 2);
        let window = get_le32(bytes, 4);
        let property = get_le32(bytes, 8);
        let property_type = get_le32(bytes, 12);
        let format = bytes[16];
        let data_len = get_le32(bytes, 20);
        let unit_bytes: u64 = if format == 8 {
            1
        } else if format == 16 {
            2
        } else if format == 32 {
            4
        } else {
            return Err(RequestError::InvalidFormat(format));
        };
        let byte_len: u64 = data_len as u64 * unit_bytes;
        if byte_len > (bytes.len() - 24) as u64 {
            return Err(RequestError::Truncated("ChangeProperty"));
        }
        let data = copy_range(bytes, 24, 24 + byte_len as usize);
        let request = ChangePropertyRequest {
            opcode,
            mode,
            length,
            window,
            property,
            property_type,
            format,
            data,
        };
        Ok(Request {
            kind: RequestKind::ChangeProperty(request),
            sequence_number: 0,
            opcode,
            minor_opcode: None,
        })
    }
}

/// What parsing `b` as a QueryColors request gives: the 8-byte fixed part, then
/// one 32-bit pixel per remaining 4 bytes of the request's declared length.
pub open spec fn query_colors_parsed(b: Seq<u8>, r: Result<Request, RequestError>) -> bool {
    let length = le16_at(b, 2);
    let count = list_count(length, 8, 4);
    &&& r is Ok <==> b.len() >= 8 && length * 4 <= b.len()
    &&& r matches Err(e) ==> (e is TooShort || e is Truncated)
    &&& r matches Ok(req) ==> {
        &&& req.sequence_number == 0
        &&& req.opcode == b[0]
        &&& req.minor_opcode == None::<u8>
        &&& req.kind matches RequestKind::QueryColors(k)
        &&& k.opcode == b[0]
        &&& k.unused == b[1]
        &&& k.length == length
        &&& k.colormap == le32_at(b, 4)
        &&& k.pixels@ == Seq::new(count as nat, |i: int| le32_at(b, 8 + 4 * i))
    }
}

impl QueryColorsParser {
    /// Parse a QueryColors request from its wire bytes.
    pub fn parse(bytes: &[u8]) -> (r: Result<Request, RequestError>)
        ensures
            query_colors_parsed(bytes@, r),
    {
        if bytes.len() < 8 {
            return Err(RequestError::TooShort("QueryColors"));
        }
        let opcode = bytes[0];
        let unused = bytes[1];
        let length = get_le16(bytes, 2);
        let colormap = get_le32(bytes, 4);
        let expected_len = (length as usize) * 4;
        if bytes.len() < expected_len {
            return Err(RequestError::Truncated("QueryColors"));
        }
        let pixel_count = count_entries(length, 8, 4);
        let pixels = read_u32_list(bytes, 8, pixel_count);
        let request = QueryColorsRequest { opcode, unused, length, colormap, pixels };
        Ok(Request {
            kind: RequestKind::QueryColors(request),
            sequence_number: 0,
            opcode,
            minor_opcode: None,
        })
    }
}

/// The inputs on which PutImage's parser would slice its image data out of
/// order: a declared length shorter than the 24-byte fixed part, on a buffer
/// that is otherwise long enough. The parser does not take these.
pub open spec fn put_image_slices_backwards(b: Seq<u8>) -> bool {
    b.len() >= 24 && le16_at(b, 2) * 4 <= b.len() && le16_at(b, 2) * 4 < 24
}

/// What parsing `b` as a PutImage request gives: the 24-byte fixed part, then
/// the image data up to the request's declared length.
pub open spec fn put_image_parsed(b: Seq<u8>, r: Result<Request, RequestError>) -> bool {
    let total = le16_at(b, 2) * 4;
    &&& r is Ok <==> b.len() >= 24 && total <= b.len()
    &&& r matches Err(e) ==> (e is TooShort || e is Truncated)
    &&& r matches Ok(req) ==> {
        &&& req.sequence_number == 0
        &&& req.opcode == b[0]
        &&& req.minor_opcode == None::<u8>
        &&& req.kind matches RequestKind::PutImage(k)
        &&& k.opcode == b[0]
        &&& k.format == b[1]
        &&& k.length == le16_at(b, 2)
        &&& k.drawable == le32_at(b, 4)
        &&& k.gc == le32_at(b, 8)
        &&& k.width == le16_at(b, 12)
        &&& k.height == le16_at(b, 14)
        &&& k.dst_x == le16_at(b, 16) as i16
        &&& k.dst_y == le16_at(b, 18) as i16
        &&& k.left_pad == b[20]
        &&& k.depth == b[21]
        &&& k.data@ == b.subrange(24, total)
    }
}

impl PutImageParser {
    /// Parse a PutImage request from its wire bytes.
    pub fn parse(bytes: &[u8]) -> (r: Result<Request, RequestError>)
        requires
            !put_image_slices_backwards(bytes@),
        ensures
            put_image_parsed(bytes@, r),
    {
        if bytes.len() < 24 {
            return Err(RequestError::TooShort("PutImage"));
        }
        let opcode = bytes[0];
        let format = bytes[1];
        let length = get_le16(bytes, 2);
        let drawable = get_le32(bytes, 4);
        let gc = get_le32(bytes, 8);
        let width = get_le16(bytes, 12);
        let height = get_le16(bytes, 14);
        let dst_x = get_le_i16(bytes, 16);
        let dst_y = get_le_i16(bytes, 18);
        let left_pad = bytes[20];
        let depth = bytes[21];
        let total_length = (length as usize) * 4;
        if bytes.len() < total_length {
            return Err(RequestError::Truncated("PutImage"));
        }
        let data = copy_range(bytes, 24, total_length);
        let request = PutImageRequest {
            opcode,
            format,
            length,
            drawable,
            gc,
            width,
            height,
            dst_x,
            dst_y,
            left_pad,
            depth,
            data,
        };
        Ok(Request {
            kind: RequestKind::PutImage(request),
            sequence_number: 0,
            opcode,
            minor_opcode: None,
        })
    }
}

/// What parsing `b` as a CreateWindow request gives: the 32-byte fixed part,
/// then one 32-bit value per remaining 4 bytes of the declared length.
pub open spec fn create_window_parsed(b: Seq<u8>, r: Result<Request, RequestError>) -> bool {
    let count = list_count(le16_at(b, 2), 32, 4);
    &&& r is Ok <==> b.len() >= 32 && 32 + 4 * count <= b.len()
    &&& r matches Err(e) ==> (e is TooShort || e is Truncated)
    &&& r matches Ok(req) ==> {
        &&& req.sequence_number == 0
        &&& req.opcode == b[0]
        &&& req.minor_opcode == None::<u8>
        &&& req.kind matches RequestKind::CreateWindow(k)
        &&& k.opcode == b[0]
        &&& k.depth == b[1]
        &&& k.length == le16_at(b, 2)
        &&& k.wid == le32_at(b, 4)
        &&& k.parent == le32_at(b, 8)
        &&& k.x == le16_at(b, 12) as i16
        &&& k.y == le16_at(b, 14) as i16
        &&& k.width == le16_at(b, 16)
        &&& k.height == le16_at(b, 18)
        &&& k.border_width == le16_at(b, 20)
        &&& k.class == le16_at(b, 22)
        &&& k.visual == le32_at(b, 24)
        &&& k.value_mask == le32_at(b, 28)
        &&& k.value_list@ == Seq::new(count as nat, |i: int| le32_at(b, 32 + 4 * i))
    }
}

impl CreateWindowParser {
    /// Parse a CreateWindow request from its wire bytes.
    pub fn parse(bytes: &[u8]) -> (r: Result<Request, RequestError>)
        ensures
            create_window_parsed(bytes@, r),
    {
        if bytes.len() < 32 {
            return Err(RequestError::TooShort("CreateWindow"));
        }
        let opcode = bytes[0];
        let depth = bytes[1];
        let length = get_le16(bytes, 2);
        let wid = get_le32(bytes, 4);
        let parent = get_le32(bytes, 8);
        let x = get_le_i16(bytes, 12);
        let y = get_le_i16(bytes, 14);
        let width = get_le16(bytes, 16);
        let height = get_le16(bytes, 18);
        let border_width = get_le16(bytes, 20);
        let class = get_le16(bytes, 22);
        let visual = get_le32(bytes, 24);
        let value_mask = get_le32(bytes, 28);
        let values_count = count_entries(length, 32, 4);
        if values_count > (bytes.len() - 32) / 4 {
            return Err(RequestError::Truncated("CreateWindow"));
        }
        let value_list = read_u32_list(bytes, 32, values_count);
        let request = CreateWindowRequest {
            opcode,
            depth,
            length,
            wid,
            parent,
            x,
            y,
            width,
            height,
            border_width,
            class,
            visual,
            value_mask,
            value_list,
        };
        Ok(Request {
            kind: RequestKind::CreateWindow(request),
            sequence_number: 0,
            opcode,
            minor_opcode: None,
        })
    }
}

/// What parsing `b` as a CreateGC request gives: the 16-byte fixed part, then
/// one 32-bit value per remaining 4 bytes of the declared length.
pub open spec fn create_gc_parsed(b: Seq<u8>, r: Result<Request, RequestError>) -> bool {
    let count = list_count(le16_at(b, 2), 16, 4);
    &&& r is Ok <==> b.len() >= 16 && 16 + 4 * count <= b.len()
    &&& r matches Err(e) ==> (e is TooShort || e is Truncated)
    &&& r matches Ok(req) ==> {
        &&& req.sequence_number == 0
        &&& req.opcode == b[0]
        &&& req.minor_opcode == None::<u8>
        &&& req.kind matches RequestKind::CreateGC(k)
        &&& k.opcode == b[0]
        &&& k.unused == b[1]
        &&& k.length == le16_at(b, 2)
        &&& k.gc == le32_at(b, 4)
        &&& k.drawable == le32_at(b, 8)
        &&& k.value_mask == le32_at(b, 12)
        &&& k.value_list@ == Seq::new(count as nat, |i: int| le32_at(b, 16 + 4 * i))
    }
}

impl CreateGCParser {
    /// Parse a CreateGC request from its wire bytes.
    pub fn parse(bytes: &[u8]) -> (r: Result<Request, RequestError>)
        ensures
            create_gc_parsed(bytes@, r),
    {
        if bytes.len() < 16 {
            return Err(RequestError::TooShort("CreateGC"));
        }
        let opcode = bytes[0];
        let unused = bytes[1];
        let length = get_le16(bytes, 2);
        let gc = get_le32(bytes, 4);
        let drawable = get_le32(bytes, 8);
        let value_mask = get_le32(bytes, 12);
        let values_count = count_entries(length, 16, 4);
        if values_count > (bytes.len() - 16) / 4 {
            return Err(RequestError::Truncated("CreateGC"));
        }
        let value_list = read_u32_list(bytes, 16, values_count);
        let request = CreateGCRequest { opcode, unused, length, gc, drawable, value_mask, value_list };
        Ok(Request {
            kind: RequestKind::CreateGC(request),
            sequence_number: 0,
            opcode,
            minor_opcode: None,
        })
    }
}

/// What parsing `b` as a ChangeGC request gives: the 12-byte fixed part, then
/// one 32-bit value per remaining 4 bytes of the declared length.
pub open spec fn change_gc_parsed(b: Seq<u8>, r: Result<Request, RequestError>) -> bool {
    let count = list_count(le16_at(b, 2), 12, 4);
    &&& r is Ok <==> b.len() >= 12 && 12 + 4 * count <= b.len()
    &&& r matches Err(e) ==> (e is TooShort || e is Truncated)
    &&& r matches Ok(req) ==> {
        &&& req.sequence_number == 0
        &&& req.opcode == b[0]
        &&& req.minor_opcode == None::<u8>
        &&& req.kind matches RequestKind::ChangeGC(k)
        &&& k.opcode == b[0]
        &&& k.unused == b[1]
        &&& k.length == le16_at(b, 2)
        &&& k.gc == le32_at(b, 4)
        &&& k.value_mask == le32_at(b, 8)
        &&& k.value_list@ == Seq::new(count as nat, |i: int| le32_at(b, 12 + 4 * i))
    }
}

impl ChangeGCParser {
    /// Parse a ChangeGC request from its wire bytes.
    pub fn parse(bytes: &[u8]) -> (r: Result<Request, RequestError>)
        ensures
            change_gc_parsed(bytes@, r),
    {
        if bytes.len() < 12 {
            return Err(RequestError::TooShort("ChangeGC"));
        }
        let opcode = bytes[0];
        let unused = bytes[1];
        let length = get_le16(bytes, 2);
        let gc = get_le32(bytes, 4);
        let value_mask = get_le32(bytes, 8);
        let values_count = count_entries(length, 12, 4);
        if values_count > (bytes.len() - 12) / 4 {
            return Err(RequestError::Truncated("ChangeGC"));
        }
        let value_list = read_u32_list(bytes, 12, values_count);
        let request = ChangeGCRequest { opcode, unused, length, gc, value_mask, value_list };
        Ok(Request {
            kind: RequestKind::ChangeGC(request),
            sequence_number: 0,
            opcode,
            minor_opcode: None,
        })
    }
}

/// What parsing `b` as a PolyArc request gives: the 12-byte fixed part, then one
/// 12-byte arc per whole 12 bytes of the declared length that remain.
pub open spec fn poly_arc_parsed(b: Seq<u8>, r: Result<Request, RequestError>) -> bool {
    let count = list_count(le16_at(b, 2), 12, 12);
    &&& r is Ok <==> b.len() >= 12 && 12 + 12 * count <= b.len()
    &&& r matches Err(e) ==> (e is TooShort || e is Truncated)
    &&& r matches Ok(req) ==> {
        &&& req.sequence_number == 0
        &&& req.opcode == b[0]
        &&& req.minor_opcode == None::<u8>
        &&& req.kind matches RequestKind::PolyArc(k)
        &&& k.opcode == b[0]
        &&& k.unused == b[1]
        &&& k.length == le16_at(b, 2)
        &&& k.drawable == le32_at(b, 4)
        &&& k.gc == le32_at(b, 8)
        &&& k.arcs@ == Seq::new(count as nat, |i: int| arc_at(b, 12 + 12 * i))
    }
}

impl PolyArcParser {
    /// Parse a PolyArc request from its wire bytes.
    pub fn parse(bytes: &[u8]) -> (r: Result<Request, RequestError>)
        ensures
            poly_arc_parsed(bytes@, r),
    {
        if bytes.len() < 12 {
            return Err(RequestError::TooShort("PolyArc"));
        }
        let opcode = bytes[0];
        let unused = bytes[1];
        let length = get_le16(bytes, 2);
        let drawable = get_le32(bytes, 4);
        let gc = get_le32(bytes, 8);
        let count = count_entries(length, 12, 12);
        if count > (bytes.len() - 12) / 12 {
            return Err(RequestError::Truncated("PolyArc"));
        }
        let arcs = read_arcs(bytes, 12, count);
        let request = PolyArcRequest { opcode, unused, length, drawable, gc, arcs };
        Ok(Request {
            kind: RequestKind::PolyArc(request),
            sequence_number: 0,
            opcode,
            minor_opcode: None,
        })
    }
}

/// What parsing `b` as a FillArc request gives: the 12-byte fixed part, then one
/// 12-byte arc per whole 12 bytes of the declared length that remain.
pub open spec fn fill_arc_parsed(b: Seq<u8>, r: Result<Request, RequestError>) -> bool {
    let count = list_count(le16_at(b, 2), 12, 12);
    &&& r is Ok <==> b.len() >= 12 && 12 + 12 * count <= b.len()
    &&& r matches Err(e) ==> (e is TooShort || e is Truncated)
    &&& r matches Ok(req) ==> {
        &&& req.sequence_number == 0
        &&& req.opcode == b[0]
        &&& req.minor_opcode == None::<u8>
        &&& req.kind matches RequestKind::FillArc(k)
        &&& k.opcode == b[0]
        &&& k.unused == b[1]
        &&& k.length == le16_at(b, 2)
        &&& k.drawable == le32_at(b, 4)
        &&& k.gc == le32_at(b, 8)
        &&& k.arcs@ == Seq::new(count as nat, |i: int| arc_at(b, 12 + 12 * i))
    }
}

impl FillArcParser {
    /// Parse a FillArc request from its wire bytes.
    pub fn parse(bytes: &[u8]) -> (r: Result<Request, RequestError>)
        ensures
            fill_arc_parsed(bytes@, r),
    {
        if bytes.len() < 12 {
            return Err(RequestError::TooShort("FillArc"));
        }
        let opcode = bytes[0];
        let unused = bytes[1];
        let length = get_le16(bytes, 2);
        let drawable = get_le32(bytes, 4);
        let gc = get_le32(bytes, 8);
        let count = count_entries(length, 12, 12);
        if count > (bytes.len() - 12) / 12 {
            return Err(RequestError::Truncated("FillArc"));
        }
        let arcs = read_arcs(bytes, 12, count);
        let request = FillArcRequest { opcode, unused, length, drawable, gc, arcs };
        Ok(Request {
            kind: RequestKind::FillArc(request),
            sequence_number: 0,
            opcode,
            minor_opcode: None,
        })
    }
}

/// What parsing `b` as a PolyLine request gives: the 12-byte fixed part, then one
/// 4-byte point per whole 4 bytes of the declared length that remain.
pub open spec fn poly_line_parsed(b: Seq<u8>, r: Result<Request, RequestError>) -> bool {
    let count = list_count(le16_at(b, 2), 12, 4);
    &&& r is Ok <==> b.len() >= 12 && 12 + 4 * count <= b.len()
    &&& r matches Err(e) ==> (e is TooShort || e is Truncated)
    &&& r matches Ok(req) ==> {
        &&& req.sequence_number == 0
        &&& req.opcode == b[0]
        &&& req.minor_opcode == None::<u8>
        &&& req.kind matches RequestKind::PolyLine(k)
        &&& k.opcode == b[0]
        &&& k.coordinate_mode == b[1]
        &&& k.length == le16_at(b, 2)
        &&& k.drawable == le32_at(b, 4)
        &&& k.gc == le32_at(b, 8)
        &&& k.points@ == Seq::new(count as nat, |i: int| point_at(b, 12 + 4 * i))
    }
}

impl PolyLineParser {
    /// Parse a PolyLine request from its wire bytes.
    pub fn parse(bytes: &[u8]) -> (r: Result<Request, RequestError>)
        ensures
            poly_line_parsed(bytes@, r),
    {
        if bytes.len() < 12 {
            return Err(RequestError::TooShort("PolyLine"));
        }
        let opcode = bytes[0];
        let coordinate_mode = bytes[1];
        let length = get_le16(bytes, 2);
        let drawable = get_le32(bytes, 4);
        let gc = get_le32(bytes, 8);
        let count = count_entries(length, 12, 4);
        if count > (bytes.len() - 12) / 4 {
            return Err(RequestError::Truncated("PolyLine"));
        }
        let points = read_points(bytes, 12, count);
        let request = PolyLineRequest { opcode, coordinate_mode, length, drawable, gc, points };
        Ok(Request {
            kind: RequestKind::PolyLine(request),
            sequence_number: 0,
            opcode,
            minor_opcode: None,
        })
    }
}

/// What parsing `b` as a PolyFillRectangle request gives: the 12-byte fixed part, then one
/// 8-byte rectangle per whole 8 bytes of the declared length that remain.
pub open spec fn poly_fill_rectangle_parsed(b: Seq<u8>, r: Result<Request, RequestError>) -> bool {
    let count = list_count(le16_at(b, 2), 12, 8);
    &&& r is Ok <==> b.len() >= 12 && 12 + 8 * count <= b.len()
    &&& r matches Err(e) ==> (e is TooShort || e is Truncated)
    &&& r matches Ok(req) ==> {
        &&& req.sequence_number == 0
        &&& req.opcode == b[0]
        &&& req.minor_opcode == None::<u8>
        &&& req.kind matches RequestKind::PolyFillRectangle(k)
        &&& k.opcode == b[0]
        &&& k.unused == b[1]
        &&& k.length == le16_at(b, 2)
        &&& k.drawable == le32_at(b, 4)
        &&& k.gc == le32_at(b, 8)
        &&& k.rectangles@ == Seq::new(count as nat, |i: int| rectangle_at(b, 12 + 8 * i))
    }
}

impl PolyFillRectangleParser {
    /// Parse a PolyFillRectangle request from its wire bytes.
    pub fn parse(bytes: &[u8]) -> (r: Result<Request, RequestError>)
        ensures
            poly_fill_rectangle_parsed(bytes@, r),
    {
        if bytes.len() < 12 {
            return Err(RequestError::TooShort("PolyFillRectangle"));
        }
        let opcode = bytes[0];
        let unused = bytes[1];
        let length = get_le16(bytes, 2);
        let drawable = get_le32(bytes, 4);
        let gc = get_le32(bytes, 8);
        let count = count_entries(length, 12, 8);
        if count > (bytes.len() - 12) / 8 {
            return Err(RequestError::Truncated("PolyFillRectangle"));
        }
        let rectangles = read_rectangles(bytes, 12, count);
        let request = PolyFillRectangleRequest { opcode, unused, length, drawable, gc, rectangles };
        Ok(Request {
            kind: RequestKind::PolyFillRectangle(request),
            sequence_number: 0,
            opcode,
            minor_opcode: None,
        })
    }
}

/// Number of set bits in `x`.
pub open spec fn popcount(x: u32) -> nat
    decreases x,
{
    if x == 0 {
        0
    } else {
        (x % 2) as nat + popcount(x / 2)
    }
}

/// Count the set bits of `x`.
pub fn count_ones(x: u32) -> (n: u32)
    ensures
        n == popcount(x),
{
    proof {
        lemma_popcount_bound(x);
    }
    let mut rest = x;
    let mut n: u32 = 0;
    while rest > 0
        invariant
            n + popcount(rest) == popcount(x),
            popcount(x) <= 32,
        decreases rest,
    {
        n = n + rest % 2;
        rest = rest / 2;
    }
    n
}

proof fn lemma_popcount_bound(x: u32)
    ensures
        popcount(x) <= 32,
{
    assert(pow2_nat(32) == 0x1_0000_0000) by {
        reveal_with_fuel(pow2_nat, 33);
    }
    lemma_popcount_bits(x, 32);
}

proof fn lemma_popcount_bits(x: u32, k: nat)
    requires
        x < pow2_nat(k),
    ensures
        popcount(x) <= k,
    decreases k,
{
    if x > 0 {
        assert(k > 0);
        lemma_popcount_bits(x / 2, (k - 1) as nat);
    }
}

/// 2 to the power `k`.
pub open spec fn pow2_nat(k: nat) -> nat
    decreases k,
{
    if k == 0 {
        1
    } else {
        2 * pow2_nat((k - 1) as nat)
    }
}

/// The GC value-mask bits the protocol defines.
pub const KNOWN_GC_VALUE_MASK: u32 = 0x007F_FFFF;

/// Whether a parsed request passes the checks its parser's `validate` makes.
pub open spec fn request_valid(request: Request) -> bool {
    match request.kind {
        RequestKind::ConnectionSetup => true,
        RequestKind::GetGeometry(k) => k.drawable != 0,
        RequestKind::InternAtom(k) => k.atom_name@.len() != 0,
        RequestKind::ChangeProperty(k) => k.window != 0 && k.property != 0,
        RequestKind::GetProperty(k) => k.window != 0,
        RequestKind::QueryColors(k) => k.colormap != 0,
        RequestKind::CreatePixmap(k) => k.pid != 0 && k.drawable != 0 && k.width != 0 && k.height
            != 0,
        RequestKind::FreePixmap(k) => k.pixmap != 0,
        RequestKind::GetInputFocus(_) => true,
        RequestKind::PutImage(k) => k.drawable != 0 && k.gc != 0 && k.width != 0 && k.height != 0
            && k.format <= 2,
        RequestKind::CreateWindow(k) => k.width != 0 && k.height != 0 && k.depth != 0,
        RequestKind::DestroyWindow(k) => k.window != 0,
        RequestKind::MapWindow(k) => k.window != 0,
        RequestKind::UnmapWindow(k) => k.window != 0,
        RequestKind::ClearArea(k) => k.window != 0,
        RequestKind::CreateGC(k) => k.gc != 0 && k.drawable != 0 && k.value_mask
            & !KNOWN_GC_VALUE_MASK == 0 && k.value_list@.len() == popcount(k.value_mask),
        RequestKind::ChangeGC(k) => k.gc != 0 && k.value_mask & !KNOWN_GC_VALUE_MASK == 0
            && k.value_list@.len() == popcount(k.value_mask),
        RequestKind::FreeGC(k) => k.gc != 0,
        RequestKind::PolyArc(k) => k.drawable != 0 && k.gc != 0,
        RequestKind::CopyArea(k) => k.src_drawable != 0 && k.dst_drawable != 0 && k.gc != 0
            && k.width != 0 && k.height != 0,
        RequestKind::FillArc(k) => k.drawable != 0 && k.gc != 0,
        RequestKind::PolyLine(k) => k.drawable != 0 && k.gc != 0 && k.points@.len() >= 2,
        RequestKind::PolyFillRectangle(k) => k.drawable != 0 && k.gc != 0,
        RequestKind::CreateGlyphCursor(k) => k.cid != 0 && k.source_font != 0,
        RequestKind::OpenFont(k) => k.fid != 0 && k.name@.len() != 0,
        RequestKind::GrabPointer(_) => true,
        RequestKind::NoOperation(_) => true,
        RequestKind::QueryExtension(k) => k.name@.len() != 0,
        RequestKind::BigRequests(_) => true,
        RequestKind::RandrQueryVersion(_) => true,
        RequestKind::RandrGetScreenResources(_) => true,
        RequestKind::RandrGetOutputInfo(_) => true,
        RequestKind::RandrGetCrtcInfo(_) => true,
        RequestKind::RandrGetScreenSizeRange(_) => true,
        RequestKind::RenderQueryVersion(_) => true,
        RequestKind::RenderCreateSolidFill(k) => k.pid != 0,
    }
}

impl GetGeometryParser {
    /// Validate the request structure.
    pub fn validate(request: &Request) -> (r: Result<(), RequestError>)
        ensures
            r is Ok <==> request.kind is GetGeometry && request_valid(*request),
            r matches Err(e) ==> if request.kind is GetGeometry {
                e is Invalid
            } else {
                e is WrongRequestKind
            },
    {
        match &request.kind {
            RequestKind::GetGeometry(req) => {
                if req.drawable == 0 {
                    return Err(RequestError::Invalid("GetGeometry: drawable must be non-zero"));
                }
                Ok(())
            }
            _ => Err(RequestError::WrongRequestKind("GetGeometryParser")),
        }
    }
}

impl InternAtomParser {
    /// Validate the request structure.
    pub fn validate(request: &Request) -> (r: Result<(), RequestError>)
        ensures
            r is Ok <==> request.kind is InternAtom && request_valid(*request),
            r matches Err(e) ==> if request.kind is InternAtom {
                e is Invalid
            } else {
                e is WrongRequestKind
            },
    {
        match &request.kind {
            RequestKind::InternAtom(req) => {
                if req.atom_name.as_str().is_empty() {
                    return Err(RequestError::Invalid("InternAtom: atom_name must not be empty"));
                }
                Ok(())
            }
            _ => Err(RequestError::WrongRequestKind("InternAtomParser")),
        }
    }
}

impl ChangePropertyParser {
    /// Validate the request structure.
    pub fn validate(request: &Request) -> (r: Result<(), RequestError>)
        ensures
            r is Ok <==> request.kind is ChangeProperty && request_valid(*request),
            r matches Err(e) ==> if request.kind is ChangeProperty {
                e is Invalid
            } else {
                e is WrongRequestKind
            },
    {
        match &request.kind {
            RequestKind::ChangeProperty(req) => {
                if req.window == 0 {
                    return Err(RequestError::Invalid("ChangeProperty: window must be non-zero"));
                }
                if req.property == 0 {
                    return Err(RequestError::Invalid("ChangeProperty: property must be non-zero"));
                }
                Ok(())
            }
            _ => Err(RequestError::WrongRequestKind("ChangePropertyParser")),
        }
    }
}

impl GetPropertyParser {
    /// Validate the request structure.
    pub fn validate(request: &Request) -> (r: Result<(), RequestError>)
        ensures
            r is Ok <==> request.kind is GetProperty && request_valid(*request),
            r matches Err(e) ==> if request.kind is GetProperty {
                e is Invalid
            } else {
                e is WrongRequestKind
            },
    {
        match &request.kind {
            RequestKind::GetProperty(req) => {
                if req.window == 0 {
                    return Err(RequestError::Invalid("GetProperty: window must be non-zero"));
                }
                Ok(())
            }
            _ => Err(RequestError::WrongRequestKind("GetPropertyParser")),
        }
    }
}

impl QueryColorsParser {
    /// Validate the request structure.
    pub fn validate(request: &Request) -> (r: Result<(), RequestError>)
        ensures
            r is Ok <==> request.kind is QueryColors && request_valid(*request),
            r matches Err(e) ==> if request.kind is QueryColors {
                e is Invalid
            } else {
                e is WrongRequestKind
            },
    {
        match &request.kind {
            RequestKind::QueryColors(req) => {
                if req.colormap == 0 {
                    return Err(RequestError::Invalid("QueryColors: colormap must be non-zero"));
                }
                Ok(())
            }
            _ => Err(RequestError::WrongRequestKind("QueryColorsParser")),
        }
    }
}

impl CreatePixmapParser {
    /// Validate the request structure.
    pub fn validate(request: &Request) -> (r: Result<(), RequestError>)
        ensures
            r is Ok <==> request.kind is CreatePixmap && request_valid(*request),
            r matches Err(e) ==> if request.kind is CreatePixmap {
                e is Invalid
            } else {
                e is WrongRequestKind
            },
    {
        match &request.kind {
            RequestKind::CreatePixmap(req) => {
                if req.pid == 0 {
                    return Err(RequestError::Invalid("CreatePixmap: pixmap id must be non-zero"));
                }
                if req.drawable == 0 {
                    return Err(RequestError::Invalid("CreatePixmap: drawable id must be non-zero"));
                }
                if req.width == 0 || req.height == 0 {
                    return Err(RequestError::Invalid("CreatePixmap: width and height must be non-zero"));
                }
                Ok(())
            }
            _ => Err(RequestError::WrongRequestKind("CreatePixmapParser")),
        }
    }
}

impl FreePixmapParser {
    /// Validate the request structure.
    pub fn validate(request: &Request) -> (r: Result<(), RequestError>)
        ensures
            r is Ok <==> request.kind is FreePixmap && request_valid(*request),
            r matches Err(e) ==> if request.kind is FreePixmap {
                e is Invalid
            } else {
                e is WrongRequestKind
            },
    {
        match &request.kind {
            RequestKind::FreePixmap(req) => {
                if req.pixmap == 0 {
                    return Err(RequestError::Invalid("FreePixmap: pixmap id must be non-zero"));
                }
                Ok(())
            }
            _ => Err(RequestError::WrongRequestKind("FreePixmapParser")),
        }
    }
}

impl PutImageParser {
    /// Validate the request structure.
    pub fn validate(request: &Request) -> (r: Result<(), RequestError>)
        ensures
            r is Ok <==> request.kind is PutImage && request_valid(*request),
            r matches Err(e) ==> if request.kind is PutImage {
                e is Invalid
            } else {
                e is WrongRequestKind
            },
    {
        match &request.kind {
            RequestKind::PutImage(req) => {
                if req.drawable == 0 {
                    return Err(RequestError::Invalid("PutImage: drawable id must be non-zero"));
                }
                if req.gc == 0 {
                    return Err(RequestError::Invalid("PutImage: graphics context id must be non-zero"));
                }
                if req.width == 0 || req.height == 0 {
                    return Err(RequestError::Invalid("PutImage: width and height must be non-zero"));
                }
                if req.format > 2 {
                    return Err(RequestError::Invalid("PutImage: invalid format"));
                }
                Ok(())
            }
            _ => Err(RequestError::WrongRequestKind("PutImageParser")),
        }
    }
}

impl CopyAreaParser {
    /// Validate the request structure.
    pub fn validate(request: &Request) -> (r: Result<(), RequestError>)
        ensures
            r is Ok <==> request.kind is CopyArea && request_valid(*request),
            r matches Err(e) ==> if request.kind is CopyArea {
                e is Invalid
            } else {
                e is WrongRequestKind
            },
    {
        match &request.kind {
            RequestKind::CopyArea(req) => {
                if req.src_drawable == 0 {
                    return Err(RequestError::Invalid("CopyArea: src_drawable id must be non-zero"));
                }
                if req.dst_drawable == 0 {
                    return Err(RequestError::Invalid("CopyArea: dst_drawable id must be non-zero"));
                }
                if req.gc == 0 {
                    return Err(RequestError::Invalid("CopyArea: graphics context id must be non-zero"));
                }
                if req.width == 0 || req.height == 0 {
                    return Err(RequestError::Invalid("CopyArea: width and height must be non-zero"));
                }
                Ok(())
            }
            _ => Err(RequestError::WrongRequestKind("CopyAreaParser")),
        }
    }
}

impl CreateWindowParser {
    /// Validate the request structure.
    pub fn validate(request: &Request) -> (r: Result<(), RequestError>)
        ensures
            r is Ok <==> request.kind is CreateWindow && request_valid(*request),
            r matches Err(e) ==> if request.kind is CreateWindow {
                e is Invalid
            } else {
                e is WrongRequestKind
            },
    {
        match &request.kind {
            RequestKind::CreateWindow(req) => {
                if req.width == 0 || req.height == 0 {
                    return Err(RequestError::Invalid("CreateWindow: width and height must be non-zero"));
                }
                if req.depth == 0 {
                    return Err(RequestError::Invalid("CreateWindow: depth must be non-zero"));
                }
                Ok(())
            }
            _ => Err(RequestError::WrongRequestKind("CreateWindowParser")),
        }
    }
}

impl DestroyWindowParser {
    /// Validate the request structure.
    pub fn validate(request: &Request) -> (r: Result<(), RequestError>)
        ensures
            r is Ok <==> request.kind is DestroyWindow && request_valid(*request),
            r matches Err(e) ==> if request.kind is DestroyWindow {
                e is Invalid
            } else {
                e is WrongRequestKind
            },
    {
        match &request.kind {
            RequestKind::DestroyWindow(req) => {
                if req.window == 0 {
                    return Err(RequestError::Invalid("DestroyWindow: window id must be non-zero"));
                }
                Ok(())
            }
            _ => Err(RequestError::WrongRequestKind("DestroyWindowParser")),
        }
    }
}

impl MapWindowParser {
    /// Validate the request structure.
    pub fn validate(request: &Request) -> (r: Result<(), RequestError>)
        ensures
            r is Ok <==> request.kind is MapWindow && request_valid(*request),
            r matches Err(e) ==> if request.kind is MapWindow {
                e is Invalid
            } else {
                e is WrongRequestKind
            },
    {
        match &request.kind {
            RequestKind::MapWindow(req) => {
                if req.window == 0 {
                    return Err(RequestError::Invalid("MapWindow: window id must be non-zero"));
                }
                Ok(())
            }
            _ => Err(RequestError::WrongRequestKind("MapWindowParser")),
        }
    }
}

impl UnmapWindowParser {
    /// Validate the request structure.
    pub fn validate(request: &Request) -> (r: Result<(), RequestError>)
        ensures
            r is Ok <==> request.kind is UnmapWindow && request_valid(*request),
            r matches Err(e) ==> if request.kind is UnmapWindow {
                e is Invalid
            } else {
                e is WrongRequestKind
            },
    {
        match &request.kind {
            RequestKind::UnmapWindow(req) => {
                if req.window == 0 {
                    return Err(RequestError::Invalid("UnmapWindow: window id must be non-zero"));
                }
                Ok(())
            }
            _ => Err(RequestError::WrongRequestKind("UnmapWindowParser")),
        }
    }
}

impl ClearAreaParser {
    /// Validate the request structure.
    pub fn validate(request: &Request) -> (r: Result<(), RequestError>)
        ensures
            r is Ok <==> request.kind is ClearArea && request_valid(*request),
            r matches Err(e) ==> if request.kind is ClearArea {
                e is Invalid
            } else {
                e is WrongRequestKind
            },
    {
        match &request.kind {
            RequestKind::ClearArea(req) => {
                if req.window == 0 {
                    return Err(RequestError::Invalid("ClearArea: window id must be non-zero"));
                }
                Ok(())
            }
            _ => Err(RequestError::WrongRequestKind("ClearAreaParser")),
        }
    }
}

impl FreeGCParser {
    /// Validate the request structure.
    pub fn validate(request: &Request) -> (r: Result<(), RequestError>)
        ensures
            r is Ok <==> request.kind is FreeGC && request_valid(*request),
            r matches Err(e) ==> if request.kind is FreeGC {
                e is Invalid
            } else {
                e is WrongRequestKind
            },
    {
        match &request.kind {
            RequestKind::FreeGC(req) => {
                if req.gc == 0 {
                    return Err(RequestError::Invalid("FreeGC: graphics context id must be non-zero"));
                }
                Ok(())
            }
            _ => Err(RequestError::WrongRequestKind("FreeGCParser")),
        }
    }
}

impl PolyArcParser {
    /// Validate the request structure.
    pub fn validate(request: &Request) -> (r: Result<(), RequestError>)
        ensures
            r is Ok <==> request.kind is PolyArc && request_valid(*request),
            r matches Err(e) ==> if request.kind is PolyArc {
                e is Invalid
            } else {
                e is WrongRequestKind
            },
    {
        match &request.kind {
            RequestKind::PolyArc(req) => {
                if req.drawable == 0 {
                    return Err(RequestError::Invalid("PolyArc: drawable id must be non-zero"));
                }
                if req.gc == 0 {
                    return Err(RequestError::Invalid("PolyArc: graphics context id must be non-zero"));
                }
                Ok(())
            }
            _ => Err(RequestError::WrongRequestKind("PolyArcParser")),
        }
    }
}

impl FillArcParser {
    /// Validate the request structure.
    pub fn validate(request: &Request) -> (r: Result<(), RequestError>)
        ensures
            r is Ok <==> request.kind is FillArc && request_valid(*request),
            r matches Err(e) ==> if request.kind is FillArc {
                e is Invalid
            } else {
                e is WrongRequestKind
            },
    {
        match &request.kind {
            RequestKind::FillArc(req) => {
                if req.drawable == 0 {
                    return Err(RequestError::Invalid("FillArc: drawable id must be non-zero"));
                }
                if req.gc == 0 {
                    return Err(RequestError::Invalid("FillArc: graphics context id must be non-zero"));
                }
                Ok(())
            }
            _ => Err(RequestError::WrongRequestKind("FillArcParser")),
        }
    }
}

impl PolyLineParser {
    /// Validate the request structure.
    pub fn validate(request: &Request) -> (r: Result<(), RequestError>)
        ensures
            r is Ok <==> request.kind is PolyLine && request_valid(*request),
            r matches Err(e) ==> if request.kind is PolyLine {
                e is Invalid
            } else {
                e is WrongRequestKind
            },
    {
        match &request.kind {
            RequestKind::PolyLine(req) => {
                if req.drawable == 0 {
                    return Err(RequestError::Invalid("PolyLine: drawable id must be non-zero"));
                }
                if req.gc == 0 {
                    return Err(RequestError::Invalid("PolyLine: graphics context id must be non-zero"));
                }
                if req.points.len() < 2 {
                    return Err(RequestError::Invalid("PolyLine: must have at least 2 points"));
                }
                Ok(())
            }
            _ => Err(RequestError::WrongRequestKind("PolyLineParser")),
        }
    }
}

impl PolyFillRectangleParser {
    /// Validate the request structure.
    pub fn validate(request: &Request) -> (r: Result<(), RequestError>)
        ensures
            r is Ok <==> request.kind is PolyFillRectangle && request_valid(*request),
            r matches Err(e) ==> if request.kind is PolyFillRectangle {
                e is Invalid
            } else {
                e is WrongRequestKind
            },
    {
        match &request.kind {
            RequestKind::PolyFillRectangle(req) => {
                if req.drawable == 0 {
                    return Err(RequestError::Invalid("PolyFillRectangle: drawable id must be non-zero"));
                }
                if req.gc == 0 {
                    return Err(RequestError::Invalid("PolyFillRectangle: graphics context id must be non-zero"));
                }
                Ok(())
            }
            _ => Err(RequestError::WrongRequestKind("PolyFillRectangleParser")),
        }
    }
}

impl CreateGlyphCursorParser {
    /// Validate the request structure.
    pub fn validate(request: &Request) -> (r: Result<(), RequestError>)
        ensures
            r is Ok <==> request.kind is CreateGlyphCursor && request_valid(*request),
            r matches Err(e) ==> if request.kind is CreateGlyphCursor {
                e is Invalid
            } else {
                e is WrongRequestKind
            },
    {
        match &request.kind {
            RequestKind::CreateGlyphCursor(req) => {
                if req.cid == 0 {
                    return Err(RequestError::Invalid("CreateGlyphCursor: cursor id must be non-zero"));
                }
                if req.source_font == 0 {
                    return Err(RequestError::Invalid("CreateGlyphCursor: source font must be non-zero"));
                }
                Ok(())
            }
            _ => Err(RequestError::WrongRequestKind("CreateGlyphCursorParser")),
        }
    }
}

impl OpenFontParser {
    /// Validate the request structure.
    pub fn validate(request: &Request) -> (r: Result<(), RequestError>)
        ensures
            r is Ok <==> request.kind is OpenFont && request_valid(*request),
            r matches Err(e) ==> if request.kind is OpenFont {
                e is Invalid
            } else {
                e is WrongRequestKind
            },
    {
        match &request.kind {
            RequestKind::OpenFont(req) => {
                if req.fid == 0 {
                    return Err(RequestError::Invalid("OpenFont: font id must be non-zero"));
                }
                if req.name.as_str().is_empty() {
                    return Err(RequestError::Invalid("OpenFont: font name must not be empty"));
                }
                Ok(())
            }
            _ => Err(RequestError::WrongRequestKind("OpenFontParser")),
        }
    }
}

impl QueryExtensionParser {
    /// Validate the request structure.
    pub fn validate(request: &Request) -> (r: Result<(), RequestError>)
        ensures
            r is Ok <==> request.kind is QueryExtension && request_valid(*request),
            r matches Err(e) ==> if request.kind is QueryExtension {
                e is Invalid
            } else {
                e is WrongRequestKind
            },
    {
        match &request.kind {
            RequestKind::QueryExtension(req) => {
                if req.name.as_str().is_empty() {
                    return Err(RequestError::Invalid("QueryExtension: name must not be empty"));
                }
                Ok(())
            }
            _ => Err(RequestError::WrongRequestKind("QueryExtensionParser")),
        }
    }
}

impl RenderCreateSolidFillParser {
    /// Validate the request structure.
    pub fn validate(request: &Request) -> (r: Result<(), RequestError>)
        ensures
            r is Ok <==> request.kind is RenderCreateSolidFill && request_valid(*request),
            r matches Err(e) ==> if request.kind is RenderCreateSolidFill {
                e is Invalid
            } else {
                e is WrongRequestKind
            },
    {
        match &request.kind {
            RequestKind::RenderCreateSolidFill(req) => {
                if req.pid == 0 {
                    return Err(RequestError::Invalid("RenderCreateSolidFill: picture id must be non-zero"));
                }
                Ok(())
            }
            _ => Err(RequestError::WrongRequestKind("RenderCreateSolidFillParser")),
        }
    }
}

impl GetInputFocusParser {
    /// Validate the request structure: every parsed GetInputFocus request is valid.
    pub fn validate(request: &Request) -> (r: Result<(), RequestError>)
        ensures
            r is Ok,
    {
        Ok(())
    }
}

impl NoOperationParser {
    /// Validate the request structure: every parsed NoOperation request is valid.
    pub fn validate(request: &Request) -> (r: Result<(), RequestError>)
        ensures
            r is Ok,
    {
        Ok(())
    }
}

impl BigRequestsParser {
    /// Validate the request structure: every parsed BigRequests request is valid.
    pub fn validate(request: &Request) -> (r: Result<(), RequestError>)
        ensures
            r is Ok,
    {
        Ok(())
    }
}

impl RandrQueryVersionParser {
    /// Validate the request structure: every parsed RandrQueryVersion request is valid.
    pub fn validate(request: &Request) -> (r: Result<(), RequestError>)
        ensures
            r is Ok,
    {
        Ok(())
    }
}

impl RandrGetScreenResourcesParser {
    /// Validate the request structure: every parsed RandrGetScreenResources request is valid.
    pub fn validate(request: &Request) -> (r: Result<(), RequestError>)
        ensures
            r is Ok,
    {
        Ok(())
    }
}

impl RandrGetOutputInfoParser {
    /// Validate the request structure: every parsed RandrGetOutputInfo request is valid.
    pub fn validate(request: &Request) -> (r: Result<(), RequestError>)
        ensures
            r is Ok,
    {
        Ok(())
    }
}

impl RandrGetCrtcInfoParser {
    /// Validate the request structure: every parsed RandrGetCrtcInfo request is valid.
    pub fn validate(request: &Request) -> (r: Result<(), RequestError>)
        ensures
            r is Ok,
    {
        Ok(())
    }
}

impl RandrGetScreenSizeRangeParser {
    /// Validate the request structure: every parsed RandrGetScreenSizeRange request is valid.
    pub fn validate(request: &Request) -> (r: Result<(), RequestError>)
        ensures
            r is Ok,
    {
        Ok(())
    }
}

impl RenderQueryVersionParser {
    /// Validate the request structure: every parsed RenderQueryVersion request is valid.
    pub fn validate(request: &Request) -> (r: Result<(), RequestError>)
        ensures
            r is Ok,
    {
        Ok(())
    }
}

impl CreateGCParser {
    /// Validate the request structure.
    pub fn validate(request: &Request) -> (r: Result<(), RequestError>)
        ensures
            r is Ok <==> request.kind is CreateGC && request_valid(*request),
            r matches Err(e) ==> if request.kind is CreateGC {
                e is Invalid || e is UnsupportedValueMaskBits || e is ValueCountMismatch
            } else {
                e is WrongRequestKind
            },
    {
        match &request.kind {
            RequestKind::CreateGC(req) => {
                if req.gc == 0 {
                    return Err(RequestError::Invalid("CreateGC: graphics context id must be non-zero"));
                }
                if req.drawable == 0 {
                    return Err(RequestError::Invalid("CreateGC: drawable id must be non-zero"));
                }
                if req.value_mask & !KNOWN_GC_VALUE_MASK != 0 {
                    return Err(RequestError::UnsupportedValueMaskBits(req.value_mask));
                }
                let expected_values = count_ones(req.value_mask) as usize;
                if req.value_list.len() != expected_values {
                    return Err(RequestError::ValueCountMismatch(req.value_list.len(), expected_values));
                }
                Ok(())
            }
            _ => Err(RequestError::WrongRequestKind("CreateGCParser")),
        }
    }
}

impl ChangeGCParser {
    /// Validate the request structure.
    pub fn validate(request: &Request) -> (r: Result<(), RequestError>)
        ensures
            r is Ok <==> request.kind is ChangeGC && request_valid(*request),
            r matches Err(e) ==> if request.kind is ChangeGC {
                e is Invalid || e is UnsupportedValueMaskBits || e is ValueCountMismatch
            } else {
                e is WrongRequestKind
            },
    {
        match &request.kind {
            RequestKind::ChangeGC(req) => {
                if req.gc == 0 {
                    return Err(RequestError::Invalid("ChangeGC: graphics context id must be non-zero"));
                }
                if req.value_mask & !KNOWN_GC_VALUE_MASK != 0 {
                    return Err(RequestError::UnsupportedValueMaskBits(req.value_mask));
                }
                let expected_values = count_ones(req.value_mask) as usize;
                if req.value_list.len() != expected_values {
                    return Err(RequestError::ValueCountMismatch(req.value_list.len(), expected_values));
                }
                Ok(())
            }
            _ => Err(RequestError::WrongRequestKind("ChangeGCParser")),
        }
    }
}

/// Main dispatcher parser that routes to specific parsers based on opcode.
pub struct X11RequestParser;

/// What the core dispatcher yields for `b`: the parser of the request's
/// opcode, or the error for an empty buffer, an extension opcode or an
/// opcode no parser handles.
pub open spec fn core_parsed(b: Seq<u8>, r: Result<Request, RequestError>) -> bool {
    if b.len() == 0 {
        r matches Err(e) && e is TooShort
    } else {
        let op = b[0];
        if op == GET_GEOMETRY {
            get_geometry_parsed(b, r)
        } else if op == INTERN_ATOM {
            intern_atom_parsed(b, r)
        } else if op == CHANGE_PROPERTY {
            change_property_parsed(b, r)
        } else if op == GET_PROPERTY {
            get_property_parsed(b, r)
        } else if op == QUERY_COLORS {
            query_colors_parsed(b, r)
        } else if op == CREATE_PIXMAP {
            create_pixmap_parsed(b, r)
        } else if op == FREE_PIXMAP {
            free_pixmap_parsed(b, r)
        } else if op == GET_INPUT_FOCUS {
            get_input_focus_parsed(b, r)
        } else if op == PUT_IMAGE {
            put_image_parsed(b, r)
        } else if op == CREATE_WINDOW {
            create_window_parsed(b, r)
        } else if op == DESTROY_WINDOW {
            destroy_window_parsed(b, r)
        } else if op == MAP_WINDOW {
            map_window_parsed(b, r)
        } else if op == UNMAP_WINDOW {
            unmap_window_parsed(b, r)
        } else if op == CLEAR_AREA {
            clear_area_parsed(b, r)
        } else if op == CREATE_GC {
            create_gc_parsed(b, r)
        } else if op == CHANGE_GC {
            change_gc_parsed(b, r)
        } else if op == FREE_GC {
            free_g_c_parsed(b, r)
        } else if op == POLY_ARC {
            poly_arc_parsed(b, r)
        } else if op == COPY_AREA {
            copy_area_parsed(b, r)
        } else if op == POLY_FILL_ARC {
            fill_arc_parsed(b, r)
        } else if op == POLY_LINE {
            poly_line_parsed(b, r)
        } else if op == POLY_FILL_RECTANGLE {
            poly_fill_rectangle_parsed(b, r)
        } else if op == CREATE_GLYPH_CURSOR {
            create_glyph_cursor_parsed(b, r)
        } else if op == OPEN_FONT {
            open_font_parsed(b, r)
        } else if op == NO_OPERATION {
            no_operation_parsed(b, r)
        } else if op == QUERY_EXTENSION {
            query_extension_parsed(b, r)
        } else if op >= FIRST_EXTENSION_OPCODE {
            r == Err::<Request, RequestError>(RequestError::ExtensionNeedsRegistry(op))
        } else {
            r == Err::<Request, RequestError>(RequestError::UnknownOpcode(op))
        }
    }
}

/// What the session-aware dispatcher yields for `b`: core opcodes as
/// `core_parsed`, extension opcodes by the extension that owns them.
pub open spec fn dynamic_parsed(b: Seq<u8>, r: Result<Request, RequestError>) -> bool {
    if b.len() == 0 {
        r matches Err(e) && e is TooShort
    } else if b[0] < FIRST_EXTENSION_OPCODE {
        core_parsed(b, r)
    } else {
        match spec_extension_for_opcode(b[0]) {
            None => r == Err::<Request, RequestError>(RequestError::UnknownOpcode(b[0])),
            Some(name) => if name == "BIG-REQUESTS"@ {
                big_requests_parsed(b, r)
            } else if name == "RANDR"@ {
                if b.len() < 2 {
                    r matches Err(e) && e is TooShort
                } else if b[1] == RandrOpcode::QueryVersion.spec_value() {
                    randr_query_version_parsed(b, r)
                } else if b[1] == RandrOpcode::GetScreenResources.spec_value() {
                    randr_get_screen_resources_parsed(b, r)
                } else if b[1] == RandrOpcode::GetOutputInfo.spec_value() {
                    randr_get_output_info_parsed(b, r)
                } else if b[1] == RandrOpcode::GetCrtcInfo.spec_value() {
                    randr_get_crtc_info_parsed(b, r)
                } else if b[1] == RandrOpcode::GetScreenSizeRange.spec_value() {
                    randr_get_screen_size_range_parsed(b, r)
                } else {
                    r matches Err(RequestError::UnknownMinorOpcode(ext, minor)) && ext@ == name
                        && minor == b[1]
                }
            } else if name == "RENDER"@ {
                if b.len() < 2 {
                    r matches Err(e) && e is TooShort
                } else if b[1] == RenderOpcode::QueryVersion.spec_value() {
                    render_query_version_parsed(b, r)
                } else if b[1] == RenderOpcode::CreateSolidFill.spec_value() {
                    render_create_solid_fill_parsed(b, r)
                } else {
                    r matches Err(RequestError::UnknownMinorOpcode(ext, minor)) && ext@ == name
                        && minor == b[1]
                }
            } else {
                r matches Err(RequestError::NoParserForExtension(ext)) && ext@ == name
            },
        }
    }
}

impl X11RequestParser {
    /// Dispatches core protocol requests (opcode < 128) only. Extension
    /// requests need a per-session major opcode table to resolve, which this
    /// method has no way to receive - use `parse_dynamic` for those.
    pub fn parse(bytes: &[u8]) -> (r: Result<Request, RequestError>)
        requires
            bytes@.len() > 0 && bytes@[0] == PUT_IMAGE ==> !put_image_slices_backwards(bytes@),
        ensures
            core_parsed(bytes@, r),
    {
        if bytes.len() == 0 {
            return Err(RequestError::TooShort("Request"));
        }
        let opcode = bytes[0];
        if opcode == GET_GEOMETRY {
            GetGeometryParser::parse(bytes)
        } else if opcode == INTERN_ATOM {
            InternAtomParser::parse(bytes)
        } else if opcode == CHANGE_PROPERTY {
            ChangePropertyParser::parse(bytes)
        } else if opcode == GET_PROPERTY {
            GetPropertyParser::parse(bytes)
        } else if opcode == QUERY_COLORS {
            QueryColorsParser::parse(bytes)
        } else if opcode == CREATE_PIXMAP {
            CreatePixmapParser::parse(bytes)
        } else if opcode == FREE_PIXMAP {
            FreePixmapParser::parse(bytes)
        } else if opcode == GET_INPUT_FOCUS {
            GetInputFocusParser::parse(bytes)
        } else if opcode == PUT_IMAGE {
            PutImageParser::parse(bytes)
        } else if opcode == CREATE_WINDOW {
            CreateWindowParser::parse(bytes)
        } else if opcode == DESTROY_WINDOW {
            DestroyWindowParser::parse(bytes)
        } else if opcode == MAP_WINDOW {
            MapWindowParser::parse(bytes)
        } else if opcode == UNMAP_WINDOW {
            UnmapWindowParser::parse(bytes)
        } else if opcode == CLEAR_AREA {
            ClearAreaParser::parse(bytes)
        } else if opcode == CREATE_GC {
            CreateGCParser::parse(bytes)
        } else if opcode == CHANGE_GC {
            ChangeGCParser::parse(bytes)
        } else if opcode == FREE_GC {
            FreeGCParser::parse(bytes)
        } else if opcode == POLY_ARC {
            PolyArcParser::parse(bytes)
        } else if opcode == COPY_AREA {
            CopyAreaParser::parse(bytes)
        } else if opcode == POLY_FILL_ARC {
            FillArcParser::parse(bytes)
        } else if opcode == POLY_LINE {
            PolyLineParser::parse(bytes)
        } else if opcode == POLY_FILL_RECTANGLE {
            PolyFillRectangleParser::parse(bytes)
        } else if opcode == CREATE_GLYPH_CURSOR {
            CreateGlyphCursorParser::parse(bytes)
        } else if opcode == OPEN_FONT {
            OpenFontParser::parse(bytes)
        } else if opcode == NO_OPERATION {
            NoOperationParser::parse(bytes)
        } else if opcode == QUERY_EXTENSION {
            QueryExtensionParser::parse(bytes)
        } else if opcode >= FIRST_EXTENSION_OPCODE {
            Err(RequestError::ExtensionNeedsRegistry(opcode))
        } else {
            Err(RequestError::UnknownOpcode(opcode))
        }
    }

    /// Dispatch a request, resolving extension (opcode >= FIRST_EXTENSION_OPCODE) requests
    /// against `extensions` - this server's per-session, dynamically
    /// assigned major opcode table - rather than fixed constants. Core
    /// protocol opcodes (< 128) dispatch identically either way, since their
    /// numbers are fixed by the spec.
    pub fn parse_dynamic(bytes: &[u8], extensions: &ExtensionRegistry) -> (r: Result<
        Request,
        RequestError,
    >)
        requires
            bytes@.len() > 0 && bytes@[0] == PUT_IMAGE ==> !put_image_slices_backwards(bytes@),
        ensures
            dynamic_parsed(bytes@, r),
    {
        if bytes.len() == 0 {
            return Err(RequestError::TooShort("Request"));
        }
        let opcode = bytes[0];
        if opcode < FIRST_EXTENSION_OPCODE {
            return Self::parse(bytes);
        }
        match extensions.extension_for_opcode(opcode) {
            None => Err(RequestError::UnknownOpcode(opcode)),
            Some(name) => {
                if str_eq(name, "BIG-REQUESTS") {
                    BigRequestsParser::parse(bytes)
                } else if str_eq(name, "RANDR") {
                    if bytes.len() < 2 {
                        return Err(RequestError::TooShort("RANDR"));
                    }
                    let minor_opcode = bytes[1];
                    if minor_opcode == RandrOpcode::QueryVersion.to_u8() {
                        RandrQueryVersionParser::parse(bytes)
                    } else if minor_opcode == RandrOpcode::GetScreenResources.to_u8() {
                        RandrGetScreenResourcesParser::parse(bytes)
                    } else if minor_opcode == RandrOpcode::GetOutputInfo.to_u8() {
                        RandrGetOutputInfoParser::parse(bytes)
                    } else if minor_opcode == RandrOpcode::GetCrtcInfo.to_u8() {
                        RandrGetCrtcInfoParser::parse(bytes)
                    } else if minor_opcode == RandrOpcode::GetScreenSizeRange.to_u8() {
                        RandrGetScreenSizeRangeParser::parse(bytes)
                    } else {
                        Err(RequestError::UnknownMinorOpcode(name, minor_opcode))
                    }
                } else if str_eq(name, "RENDER") {
                    if bytes.len() < 2 {
                        return Err(RequestError::TooShort("RENDER"));
                    }
                    let minor_opcode = bytes[1];
                    if minor_opcode == RenderOpcode::QueryVersion.to_u8() {
                        RenderQueryVersionParser::parse(bytes)
                    } else if minor_opcode == RenderOpcode::CreateSolidFill.to_u8() {
                        RenderCreateSolidFillParser::parse(bytes)
                    } else {
                        Err(RequestError::UnknownMinorOpcode(name, minor_opcode))
                    }
                } else {
                    Err(RequestError::NoParserForExtension(name))
                }
            },
        }
    }

    /// Validate any parsed request with the checks of its kind's parser.
    pub fn validate(request: &Request) -> (r: Result<(), RequestError>)
        ensures
            r is Ok <==> request_valid(*request),
            r matches Err(e) ==> e is Invalid || e is UnsupportedValueMaskBits
                || e is ValueCountMismatch,
    {
        match &request.kind {
            RequestKind::GetGeometry(_) => GetGeometryParser::validate(request),
            RequestKind::InternAtom(_) => InternAtomParser::validate(request),
            RequestKind::ChangeProperty(_) => ChangePropertyParser::validate(request),
            RequestKind::GetProperty(_) => GetPropertyParser::validate(request),
            RequestKind::QueryColors(_) => QueryColorsParser::validate(request),
            RequestKind::CreatePixmap(_) => CreatePixmapParser::validate(request),
            RequestKind::FreePixmap(_) => FreePixmapParser::validate(request),
            RequestKind::GetInputFocus(_) => GetInputFocusParser::validate(request),
            RequestKind::PutImage(_) => PutImageParser::validate(request),
            RequestKind::CreateWindow(_) => CreateWindowParser::validate(request),
            RequestKind::DestroyWindow(_) => DestroyWindowParser::validate(request),
            RequestKind::MapWindow(_) => MapWindowParser::validate(request),
            RequestKind::UnmapWindow(_) => UnmapWindowParser::validate(request),
            RequestKind::ClearArea(_) => ClearAreaParser::validate(request),
            RequestKind::CreateGC(_) => CreateGCParser::validate(request),
            RequestKind::ChangeGC(_) => ChangeGCParser::validate(request),
            RequestKind::FreeGC(_) => FreeGCParser::validate(request),
            RequestKind::PolyArc(_) => PolyArcParser::validate(request),
            RequestKind::CopyArea(_) => CopyAreaParser::validate(request),
            RequestKind::FillArc(_) => FillArcParser::validate(request),
            RequestKind::PolyLine(_) => PolyLineParser::validate(request),
            RequestKind::PolyFillRectangle(_) => PolyFillRectangleParser::validate(request),
            RequestKind::CreateGlyphCursor(_) => CreateGlyphCursorParser::validate(request),
            RequestKind::OpenFont(_) => OpenFontParser::validate(request),
            RequestKind::NoOperation(_) => NoOperationParser::validate(request),
            RequestKind::ConnectionSetup => Ok(()),
            RequestKind::QueryExtension(_) => QueryExtensionParser::validate(request),
            RequestKind::BigRequests(_) => BigRequestsParser::validate(request),
            RequestKind::RandrQueryVersion(_) => RandrQueryVersionParser::validate(request),
            RequestKind::RandrGetScreenResources(_) => {
                RandrGetScreenResourcesParser::validate(request)
            },
            RequestKind::RandrGetOutputInfo(_) => RandrGetOutputInfoParser::validate(request),
            RequestKind::RandrGetCrtcInfo(_) => RandrGetCrtcInfoParser::validate(request),
            RequestKind::RandrGetScreenSizeRange(_) => {
                RandrGetScreenSizeRangeParser::validate(request)
            },
            RequestKind::RenderQueryVersion(_) => RenderQueryVersionParser::validate(request),
            RequestKind::RenderCreateSolidFill(_) => RenderCreateSolidFillParser::validate(request),
            RequestKind::GrabPointer(_) => Ok(()),
        }
    }
}

/// A core request (opcode below 128) parses the same way with or without a
/// session's extension table: every result `parse_dynamic` may give is one
/// `parse` may give, and the other way round.
pub proof fn lemma_dynamic_parse_agrees_on_core_opcodes(b: Seq<u8>, r: Result<Request, RequestError>)
    requires
        b.len() > 0,
        b[0] < FIRST_EXTENSION_OPCODE,
    ensures
        dynamic_parsed(b, r) <==> core_parsed(b, r),
{
}

/// Parsing the same core request with and without a session's extension
/// table agrees: both succeed or both fail, and two successes carry the same
/// opcode, minor opcode and sequence number.
pub proof fn lemma_dynamic_and_core_parse_agree(
    b: Seq<u8>,
    dynamic: Result<Request, RequestError>,
    core: Result<Request, RequestError>,
)
    requires
        b.len() > 0,
        b[0] < FIRST_EXTENSION_OPCODE,
        dynamic_parsed(b, dynamic),
        core_parsed(b, core),
    ensures
        dynamic is Ok <==> core is Ok,
        dynamic matches Ok(d) ==> core matches Ok(c) && d.opcode == c.opcode && d.minor_opcode
            == c.minor_opcode && d.sequence_number == c.sequence_number,
{
}

/// An extension request whose major opcode belongs to no extension with a
/// parser here (BIG-REQUESTS, RANDR, RENDER) is refused.
pub proof fn lemma_dynamic_parse_refuses_other_extensions(b: Seq<u8>, r: Result<Request, RequestError>)
    requires
        b.len() > 0,
        b[0] >= FIRST_EXTENSION_OPCODE,
        !(spec_extension_for_opcode(b[0]) matches Some(name) && (name == "BIG-REQUESTS"@
            || name == "RANDR"@ || name == "RENDER"@)),
        dynamic_parsed(b, r),
    ensures
        r is Err,
{
}

} // verus!

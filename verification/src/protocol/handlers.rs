//! Standard X11 request handlers
//!
//! The decisions each request handler makes and the replies it builds, from
//! the request and the parts of the server's state the handler reads.

use vstd::prelude::*;
use crate::protocol::request::{count_ones, popcount};
use crate::protocol::endianness::{
    lemma_u16_at_encoding, lemma_u32_at_encoding, pad_to, u16_at, u16_bytes, u32_at, u32_bytes,
    zeros, EndianWriter,
};
use crate::protocol::extension_registry::{implemented_extension_names, spec_major_opcode, ExtensionRegistry};
use crate::protocol::handler::{HandlerResult, RequestHandler};
use crate::protocol::handshake::decimal;
use crate::protocol::request::{GetPropertyRequest, GrabPointerRequest, Request, RequestKind};
use crate::protocol::types::{ByteOrder, RenderOpcode, WindowClass, X11Error};
use crate::protocol::types::value_mask::{BACKGROUND_PIXEL, BACKGROUND_PIXMAP};

pub mod gc_value_mask;

verus! {

/// A window's background, as CreateWindow's value list sets it.
#[derive(Debug, Clone, Copy, PartialEq, Eq, Structural)]
pub enum Background {
    NoBackground,
    ParentRelative,
    Pixel(u32),
    Pixmap(u32),
}

/// A pixmap value in a value list: 0 is None, 1 is ParentRelative, any
/// other value names a pixmap.
#[derive(Debug, Clone, Copy, PartialEq, Eq, Structural)]
pub enum PixmapValue {
    NoPixmap,
    ParentRelative,
    Id(u32),
}

impl PixmapValue {
    pub open spec fn spec_from_u32(v: u32) -> PixmapValue {
        if v == 0 {
            PixmapValue::NoPixmap
        } else if v == 1 {
            PixmapValue::ParentRelative
        } else {
            PixmapValue::Id(v)
        }
    }

    /// The pixmap value a value-list entry holds.
    pub fn from_u32(v: u32) -> (r: PixmapValue)
        ensures
            r == PixmapValue::spec_from_u32(v),
    {
        if v == 0 {
            PixmapValue::NoPixmap
        } else if v == 1 {
            PixmapValue::ParentRelative
        } else {
            PixmapValue::Id(v)
        }
    }
}

/// The value-list slot of `bit`: each set bit of the mask takes one slot,
/// in ascending bit order; `None` when the bit is clear or the list is too short.
pub open spec fn spec_value_list_entry(value_mask: u32, value_list: Seq<u32>, bit: u32) -> Option<u32> {
    if value_mask & bit == 0 {
        None
    } else {
        let index = popcount(value_mask & ((bit - 1) as u32));
        if index < value_list.len() {
            Some(value_list[index as int])
        } else {
            None
        }
    }
}

/// Look up the value-list slot for a single value-mask bit, per xproto's
/// CreateWindow encoding: each set bit in the mask consumes exactly one
/// CARD32 slot in `value_list`, in ascending bit order. Returns `None` if
/// `bit` isn't set in `value_mask`.
pub fn value_list_entry(value_mask: u32, value_list: &[u32], bit: u32) -> (r: Option<u32>)
    ensures
        r == spec_value_list_entry(value_mask, value_list@, bit),
{
    if value_mask & bit == 0 {
        return None;
    }
    assert(bit != 0) by (bit_vector)
        requires
            value_mask & bit != 0,
    ;
    let index = count_ones(value_mask & (bit - 1)) as usize;
    if index < value_list.len() {
        Some(value_list[index])
    } else {
        None
    }
}

/// The background CreateWindow's value list sets: the background pixel when
/// its bit is set (it wins over the pixmap), else the background pixmap,
/// else None.
pub open spec fn spec_decode_background(value_mask: u32, value_list: Seq<u32>) -> Background {
    match spec_value_list_entry(value_mask, value_list, BACKGROUND_PIXEL) {
        Some(pixel) => Background::Pixel(pixel),
        None => match spec_value_list_entry(value_mask, value_list, BACKGROUND_PIXMAP) {
            Some(pixmap) => match PixmapValue::spec_from_u32(pixmap) {
                PixmapValue::NoPixmap => Background::NoBackground,
                PixmapValue::ParentRelative => Background::ParentRelative,
                PixmapValue::Id(id) => Background::Pixmap(id),
            },
            None => Background::NoBackground,
        },
    }
}

/// Decode the `background-pixmap`/`background-pixel` value-list entries into
/// a `Background`, per xproto's CreateWindow VALUEs table. `background-pixel`
/// takes precedence when both bits are set, matching real X servers - the
/// spec doesn't define an order between them, but only one is ever sent in
/// practice.
pub fn decode_background(value_mask: u32, value_list: &[u32]) -> (r: Background)
    ensures
        r == spec_decode_background(value_mask, value_list@),
{
    if let Some(pixel) = value_list_entry(value_mask, value_list, BACKGROUND_PIXEL) {
        return Background::Pixel(pixel);
    }
    if let Some(pixmap) = value_list_entry(value_mask, value_list, BACKGROUND_PIXMAP) {
        return match PixmapValue::from_u32(pixmap) {
            PixmapValue::NoPixmap => Background::NoBackground,
            PixmapValue::ParentRelative => Background::ParentRelative,
            PixmapValue::Id(id) => Background::Pixmap(id),
        };
    }
    // Neither bit set: spec default for CreateWindow is background None.
    Background::NoBackground
}

/// The state of a graphics context that GC values set.
#[derive(Debug, Clone, Copy, PartialEq, Eq, Structural)]
pub struct GraphicsContext {
    pub function: u8,
    pub plane_mask: u32,
    pub foreground: u32,
    pub background: u32,
    pub line_width: u16,
    pub line_style: u8,
    pub cap_style: u8,
    pub join_style: u8,
    pub fill_style: u8,
    pub fill_rule: u8,
    pub tile: Option<u32>,
    pub stipple: Option<u32>,
    pub tile_stipple_x_origin: i16,
    pub tile_stipple_y_origin: i16,
    pub font: Option<u32>,
    pub subwindow_mode: u8,
    pub graphics_exposures: bool,
    pub clip_x_origin: i16,
    pub clip_y_origin: i16,
    pub clip_mask: Option<u32>,
    pub dash_offset: u16,
    pub dashes: u8,
    pub arc_mode: u8,
}

/// The number of GC components the value mask can name.
pub open spec fn gc_component_count() -> nat {
    23
}

/// How many of the first `k` GC components the mask selects: the slot of
/// component `k` in the value list.
pub open spec fn gc_rank(value_mask: u32, k: nat) -> nat
    decreases k,
{
    if k == 0 {
        0
    } else {
        gc_rank(value_mask, (k - 1) as nat) + if value_mask & (1u32 << ((k - 1) as u32)) != 0 {
            1nat
        } else {
            0nat
        }
    }
}

/// `gc` with GC component `k` set from the value-list entry `v`.
pub open spec fn gc_with_component(gc: GraphicsContext, k: nat, v: u32) -> GraphicsContext {
    if k == 0 {
        GraphicsContext { function: v as u8, ..gc }
    } else if k == 1 {
        GraphicsContext { plane_mask: v, ..gc }
    } else if k == 2 {
        GraphicsContext { foreground: v, ..gc }
    } else if k == 3 {
        GraphicsContext { background: v, ..gc }
    } else if k == 4 {
        GraphicsContext { line_width: v as u16, ..gc }
    } else if k == 5 {
        GraphicsContext { line_style: v as u8, ..gc }
    } else if k == 6 {
        GraphicsContext { cap_style: v as u8, ..gc }
    } else if k == 7 {
        GraphicsContext { join_style: v as u8, ..gc }
    } else if k == 8 {
        GraphicsContext { fill_style: v as u8, ..gc }
    } else if k == 9 {
        GraphicsContext { fill_rule: v as u8, ..gc }
    } else if k == 10 {
        GraphicsContext { tile: Some(v), ..gc }
    } else if k == 11 {
        GraphicsContext { stipple: Some(v), ..gc }
    } else if k == 12 {
        GraphicsContext { tile_stipple_x_origin: v as u16 as i16, ..gc }
    } else if k == 13 {
        GraphicsContext { tile_stipple_y_origin: v as u16 as i16, ..gc }
    } else if k == 14 {
        GraphicsContext { font: Some(v), ..gc }
    } else if k == 15 {
        GraphicsContext { subwindow_mode: v as u8, ..gc }
    } else if k == 16 {
        GraphicsContext { graphics_exposures: v != 0, ..gc }
    } else if k == 17 {
        GraphicsContext { clip_x_origin: v as u16 as i16, ..gc }
    } else if k == 18 {
        GraphicsContext { clip_y_origin: v as u16 as i16, ..gc }
    } else if k == 19 {
        GraphicsContext { clip_mask: if v != 0 { Some(v) } else { None }, ..gc }
    } else if k == 20 {
        GraphicsContext { dash_offset: v as u16, ..gc }
    } else if k == 21 {
        GraphicsContext { dashes: v as u8, ..gc }
    } else if k == 22 {
        GraphicsContext { arc_mode: v as u8, ..gc }
    } else {
        gc
    }
}

/// `gc` after the first `k` components the mask selects are set from their
/// slots, as far as the list reaches.
pub open spec fn gc_after(gc: GraphicsContext, value_mask: u32, values: Seq<u32>, k: nat) -> GraphicsContext
    decreases k,
{
    if k == 0 {
        gc
    } else {
        let i = (k - 1) as nat;
        let prev = gc_after(gc, value_mask, values, i);
        if value_mask & (1u32 << (i as u32)) != 0 && gc_rank(value_mask, i) < values.len() {
            gc_with_component(prev, i, values[gc_rank(value_mask, i) as int])
        } else {
            prev
        }
    }
}

/// GC component `k` as the value list encodes it: the number it holds, an
/// unset resource as 0, a flag as 0 or 1, a coordinate by its 16 bits.
pub open spec fn gc_component(gc: GraphicsContext, k: nat) -> int {
    if k == 0 {
        gc.function as int
    } else if k == 1 {
        gc.plane_mask as int
    } else if k == 2 {
        gc.foreground as int
    } else if k == 3 {
        gc.background as int
    } else if k == 4 {
        gc.line_width as int
    } else if k == 5 {
        gc.line_style as int
    } else if k == 6 {
        gc.cap_style as int
    } else if k == 7 {
        gc.join_style as int
    } else if k == 8 {
        gc.fill_style as int
    } else if k == 9 {
        gc.fill_rule as int
    } else if k == 10 {
        match gc.tile {
            Some(t) => t as int,
            None => 0,
        }
    } else if k == 11 {
        match gc.stipple {
            Some(t) => t as int,
            None => 0,
        }
    } else if k == 12 {
        gc.tile_stipple_x_origin as u16 as int
    } else if k == 13 {
        gc.tile_stipple_y_origin as u16 as int
    } else if k == 14 {
        match gc.font {
            Some(t) => t as int,
            None => 0,
        }
    } else if k == 15 {
        gc.subwindow_mode as int
    } else if k == 16 {
        if gc.graphics_exposures {
            1
        } else {
            0
        }
    } else if k == 17 {
        gc.clip_x_origin as u16 as int
    } else if k == 18 {
        gc.clip_y_origin as u16 as int
    } else if k == 19 {
        match gc.clip_mask {
            Some(t) => t as int,
            None => 0,
        }
    } else if k == 20 {
        gc.dash_offset as int
    } else if k == 21 {
        gc.dashes as int
    } else if k == 22 {
        gc.arc_mode as int
    } else {
        0
    }
}

/// What GC component `k` holds once set from the list entry `v`: the entry cut
/// to the component's width (8 bits for the function, styles, rules, modes,
/// dashes and arc mode; 16 for the line width, origins and dash offset; all
/// 32 for masks, pixels and resources), and for graphics-exposures whether
/// the entry is non-zero.
pub open spec fn gc_component_value(k: nat, v: u32) -> int {
    if k == 0 || k == 5 || k == 6 || k == 7 || k == 8 || k == 9 || k == 15 || k == 21 || k == 22 {
        v as int % 256
    } else if k == 4 || k == 12 || k == 13 || k == 17 || k == 18 || k == 20 {
        v as int % 65536
    } else if k == 16 {
        if v != 0 {
            1
        } else {
            0
        }
    } else {
        v as int
    }
}

/// Setting GC component `k` from a list entry gives that component the
/// entry's value in the component's width and leaves every other component
/// as it was.
pub proof fn lemma_gc_component_set(gc: GraphicsContext, k: nat, v: u32, j: nat)
    requires
        k < gc_component_count(),
        j < gc_component_count(),
    ensures
        gc_component(gc_with_component(gc, k, v), j) == if j == k {
            gc_component_value(k, v)
        } else {
            gc_component(gc, j)
        },
{
    assert((v as u16 as i16) as u16 == v as u16) by (bit_vector);
    assert(v as u8 as int == v as int % 256) by (bit_vector);
    assert(v as u16 as int == v as int % 65536) by (bit_vector);
}

proof fn lemma_gc_after_component_prefix(gc: GraphicsContext, value_mask: u32, values: Seq<u32>, n: nat, j: nat)
    requires
        j < gc_component_count(),
        n <= gc_component_count(),
    ensures
        gc_component(gc_after(gc, value_mask, values, n), j) == if j < n && value_mask & (1u32
            << (j as u32)) != 0 && gc_rank(value_mask, j) < values.len() {
            gc_component_value(j, values[gc_rank(value_mask, j) as int])
        } else {
            gc_component(gc, j)
        },
    decreases n,
{
    if n > 0 {
        let i = (n - 1) as nat;
        lemma_gc_after_component_prefix(gc, value_mask, values, i, j);
        let prev = gc_after(gc, value_mask, values, i);
        if value_mask & (1u32 << (i as u32)) != 0 && gc_rank(value_mask, i) < values.len() {
            lemma_gc_component_set(prev, i, values[gc_rank(value_mask, i) as int], j);
        }
    }
}

/// Applying a value list sets exactly the GC components the value-mask
/// selects, each from its own slot in the list (the number of selected bits
/// below its own), in the component's width, and leaves every other
/// component, and those whose slot lies past the list's end, as they were.
pub proof fn lemma_gc_after_components(gc: GraphicsContext, value_mask: u32, values: Seq<u32>, j: nat)
    requires
        j < gc_component_count(),
    ensures
        gc_component(gc_after(gc, value_mask, values, gc_component_count()), j) == if value_mask & (
        1u32 << (j as u32)) != 0 && gc_rank(value_mask, j) < values.len() {
            gc_component_value(j, values[gc_rank(value_mask, j) as int])
        } else {
            gc_component(gc, j)
        },
{
    lemma_gc_after_component_prefix(gc, value_mask, values, gc_component_count(), j);
}

proof fn lemma_foreground_settled(gc: GraphicsContext, value_mask: u32, values: Seq<u32>, j: nat)
    requires
        j >= 3,
    ensures
        gc_after(gc, value_mask, values, j).foreground == gc_after(gc, value_mask, values, 3).foreground,
    decreases j,
{
    if j > 3 {
        lemma_foreground_settled(gc, value_mask, values, (j - 1) as nat);
    }
}

proof fn lemma_background_settled(gc: GraphicsContext, value_mask: u32, values: Seq<u32>, j: nat)
    requires
        j >= 4,
    ensures
        gc_after(gc, value_mask, values, j).background == gc_after(gc, value_mask, values, 4).background,
    decreases j,
{
    if j > 4 {
        lemma_background_settled(gc, value_mask, values, (j - 1) as nat);
    }
}

/// A value list fills the graphics context's foreground and background as
/// the X11 value-mask says: the foreground changes only when bit 0x4 is set,
/// and then takes the list entry after those of bits 0x1 and 0x2; the
/// background changes only when bit 0x8 is set, and then takes the entry
/// after those of bits 0x1, 0x2 and 0x4. A list too short for the bit
/// leaves the component as it was.
pub proof fn lemma_gc_foreground_and_background(
    gc: GraphicsContext,
    value_mask: u32,
    values: Seq<u32>,
)
    ensures
        ({
            let after = gc_after(gc, value_mask, values, gc_component_count());
            let fg_slot = (if value_mask & 1 != 0 { 1int } else { 0int }) + (if value_mask & 2 != 0 {
                1int
            } else {
                0int
            });
            let bg_slot = fg_slot + if value_mask & 4 != 0 { 1int } else { 0int };
            &&& after.foreground == if value_mask & 4 != 0 && fg_slot < values.len() {
                values[fg_slot]
            } else {
                gc.foreground
            }
            &&& after.background == if value_mask & 8 != 0 && bg_slot < values.len() {
                values[bg_slot]
            } else {
                gc.background
            }
        }),
{
    assert((1u32 << 0u32) == 1u32) by (bit_vector);
    assert((1u32 << 1u32) == 2u32) by (bit_vector);
    assert((1u32 << 2u32) == 4u32) by (bit_vector);
    assert((1u32 << 3u32) == 8u32) by (bit_vector);
    lemma_foreground_settled(gc, value_mask, values, gc_component_count());
    lemma_background_settled(gc, value_mask, values, gc_component_count());
    assert(gc_rank(value_mask, 0) == 0);
    assert(gc_rank(value_mask, 1) == gc_rank(value_mask, 0) + if value_mask & (1u32 << 0u32) != 0 {
        1nat
    } else {
        0nat
    });
    assert(gc_rank(value_mask, 2) == gc_rank(value_mask, 1) + if value_mask & (1u32 << 1u32) != 0 {
        1nat
    } else {
        0nat
    });
    assert(gc_rank(value_mask, 3) == gc_rank(value_mask, 2) + if value_mask & (1u32 << 2u32) != 0 {
        1nat
    } else {
        0nat
    });
    let a1 = gc_after(gc, value_mask, values, 1);
    let a2 = gc_after(gc, value_mask, values, 2);
    let a3 = gc_after(gc, value_mask, values, 3);
    assert(gc_after(gc, value_mask, values, 0) == gc);
    assert(a1 == if value_mask & (1u32 << 0u32) != 0 && gc_rank(value_mask, 0) < values.len() {
        gc_with_component(gc, 0, values[gc_rank(value_mask, 0) as int])
    } else {
        gc
    });
    assert(a2 == if value_mask & (1u32 << 1u32) != 0 && gc_rank(value_mask, 1) < values.len() {
        gc_with_component(a1, 1, values[gc_rank(value_mask, 1) as int])
    } else {
        a1
    });
    let a4 = gc_after(gc, value_mask, values, 4);
    assert(a1.foreground == gc.foreground && a1.background == gc.background);
    assert(a2.foreground == gc.foreground);
    assert(a2.background == gc.background);
    assert(a3.background == gc.background);
    assert(a3 == if value_mask & (1u32 << 2u32) != 0 && gc_rank(value_mask, 2) < values.len() {
        gc_with_component(a2, 2, values[gc_rank(value_mask, 2) as int])
    } else {
        a2
    });
    assert(a4 == if value_mask & (1u32 << 3u32) != 0 && gc_rank(value_mask, 3) < values.len() {
        gc_with_component(a3, 3, values[gc_rank(value_mask, 3) as int])
    } else {
        a3
    });
}

proof fn lemma_gc_rank_monotone(value_mask: u32, i: nat, j: nat)
    requires
        i <= j,
    ensures
        gc_rank(value_mask, i) <= gc_rank(value_mask, j),
    decreases j - i,
{
    if i < j {
        lemma_gc_rank_monotone(value_mask, i, (j - 1) as nat);
    }
}

proof fn lemma_gc_after_stable(gc: GraphicsContext, value_mask: u32, values: Seq<u32>, k: nat, j: nat)
    requires
        k <= j,
        gc_rank(value_mask, k) >= values.len(),
    ensures
        gc_after(gc, value_mask, values, j) == gc_after(gc, value_mask, values, k),
    decreases j - k,
{
    if k < j {
        lemma_gc_after_stable(gc, value_mask, values, k, (j - 1) as nat);
        lemma_gc_rank_monotone(value_mask, k, (j - 1) as nat);
    }
}

fn set_gc_component(gc: &mut GraphicsContext, k: u32, value: u32)
    requires
        k < 23,
    ensures
        *final(gc) == gc_with_component(*old(gc), k as nat, value),
{
    match k {
        0 => {
            gc.function = value as u8;
        },
        1 => {
            gc.plane_mask = value;
        },
        2 => {
            gc.foreground = value;
        },
        3 => {
            gc.background = value;
        },
        4 => {
            gc.line_width = value as u16;
        },
        5 => {
            gc.line_style = value as u8;
        },
        6 => {
            gc.cap_style = value as u8;
        },
        7 => {
            gc.join_style = value as u8;
        },
        8 => {
            gc.fill_style = value as u8;
        },
        9 => {
            gc.fill_rule = value as u8;
        },
        10 => {
            gc.tile = Some(value);
        },
        11 => {
            gc.stipple = Some(value);
        },
        12 => {
            gc.tile_stipple_x_origin = value as u16 as i16;
        },
        13 => {
            gc.tile_stipple_y_origin = value as u16 as i16;
        },
        14 => {
            gc.font = Some(value);
        },
        15 => {
            gc.subwindow_mode = value as u8;
        },
        16 => {
            gc.graphics_exposures = value != 0;
        },
        17 => {
            gc.clip_x_origin = value as u16 as i16;
        },
        18 => {
            gc.clip_y_origin = value as u16 as i16;
        },
        19 => {
            gc.clip_mask = if value != 0 { Some(value) } else { None };
        },
        20 => {
            gc.dash_offset = value as u16;
        },
        21 => {
            gc.dashes = value as u8;
        },
        22 => {
            gc.arc_mode = value as u8;
        },
        _ => {},
    }
}

/// The message when a value-mask asks for more values than the list holds.
pub open spec fn value_list_short_message() -> Seq<char> {
    "GC value-list ended before value-mask was satisfied"@
}

/// Set the components of `gc` that `value_mask` selects from `value_list`,
/// in ascending bit order. When the list ends before the mask is satisfied,
/// the components before that point stay set and an error is returned.
pub fn apply_gc_values(gc: &mut GraphicsContext, value_mask: u32, value_list: &[u32]) -> (r: Result<
    (),
    X11Error,
>)
    ensures
        r is Ok <==> gc_rank(value_mask, gc_component_count()) <= value_list@.len(),
        *final(gc) == gc_after(*old(gc), value_mask, value_list@, gc_component_count()),
        r matches Err(e) ==> e matches X11Error::Protocol(m) && m@ == value_list_short_message(),
{
    let mut next: usize = 0;
    let mut k: u32 = 0;
    while k < 23
        invariant
            k <= 23,
            next == gc_rank(value_mask, k as nat),
            next <= value_list@.len(),
            *gc == gc_after(*old(gc), value_mask, value_list@, k as nat),
        decreases 23 - k,
    {
        if value_mask & (1u32 << k) != 0 {
            if next >= value_list.len() {
                proof {
                    lemma_gc_after_stable(*old(gc), value_mask, value_list@, k as nat, 23);
                    lemma_gc_rank_monotone(value_mask, (k + 1) as nat, 23);
                }
                return Err(
                    X11Error::Protocol(
                        "GC value-list ended before value-mask was satisfied".to_owned(),
                    ),
                );
            }
            let value = value_list[next];
            next = next + 1;
            set_gc_component(gc, k, value);
        }
        k = k + 1;
    }
    Ok(())
}

// ---------------------------------------------------------------------------
// The handlers
// ---------------------------------------------------------------------------

/// How the message of a handler's wrong-kind error begins: the handler's name
/// and a colon; the request's `Debug` form follows.
pub open spec fn wrong_kind_prefix(handler: Seq<char>) -> Seq<char> {
    "Invalid request type for "@ + handler + ": "@
}

/// `format!("Invalid request type for {}: {:?}", handler, kind)`. The literal
/// text and the handler's name come first, as `format!` writes them; what the
/// derived `Debug` of the request kind writes after them is not stated.
#[verifier::external_body]
pub(crate) fn wrong_kind_message(handler: &str, kind: &RequestKind) -> (s: String)
    ensures
        wrong_kind_prefix(handler@).is_prefix_of(s@),
{
    format!("Invalid request type for {}: {:?}", handler, kind)
}

/// The error a handler gives when handed a request of another kind: a protocol
/// error naming the handler and the request kind it got.
fn wrong_kind(handler: &str, kind: &RequestKind) -> (e: X11Error)
    ensures
        e matches X11Error::Protocol(m) && wrong_kind_prefix(handler@).is_prefix_of(m@),
{
    X11Error::Protocol(wrong_kind_message(handler, kind))
}

/// A message naming one resource: `before`, the id in decimal, `after`.
pub open spec fn id_message(before: Seq<char>, id: u32, after: Seq<char>) -> Seq<char> {
    before + decimal(id as nat) + after
}

/// A message naming two resources: `before`, the first id in decimal,
/// `middle`, the second id in decimal.
pub open spec fn two_id_message(before: Seq<char>, a: u32, middle: Seq<char>, b: u32) -> Seq<char> {
    before + decimal(a as nat) + middle + decimal(b as nat)
}

/// `format!("{}{}{}", before, id, after)`: the id in decimal between the two
/// texts.
#[verifier::external_body]
fn id_text(before: &str, id: u32, after: &str) -> (s: String)
    ensures
        s@ == id_message(before@, id, after@),
{
    format!("{}{}{}", before, id, after)
}

/// `format!("{}{}{}{}", before, a, middle, b)`: both ids in decimal.
#[verifier::external_body]
fn two_id_text(before: &str, a: u32, middle: &str, b: u32) -> (s: String)
    ensures
        s@ == two_id_message(before@, a, middle@, b),
{
    format!("{}{}{}{}", before, a, middle, b)
}

/// A 32-byte reply with the given second byte and no body after the header
/// but `tail`: 1, `data`, the sequence number, a zero length, `tail`, padded
/// with zeros to 32 bytes.
pub open spec fn short_reply(order: ByteOrder, data: u8, sequence: u16, tail: Seq<u8>) -> Seq<u8> {
    seq![1u8, data] + u16_bytes(sequence, order) + u32_bytes(0, order) + tail + zeros(
        (24 - tail.len()) as nat,
    )
}

/// The geometry of a window, as GetGeometry reports it.
#[derive(Debug, Clone, Copy)]
pub struct WindowGeometry {
    pub depth: u8,
    pub x: i16,
    pub y: i16,
    pub width: u16,
    pub height: u16,
    pub border_width: u16,
}

/// The GetGeometry reply for a drawable of the given geometry under `root`.
pub open spec fn geometry_reply(order: ByteOrder, w: WindowGeometry, root: u32, sequence: u16) -> Seq<u8> {
    short_reply(
        order,
        w.depth,
        sequence,
        u32_bytes(root, order) + u16_bytes(w.x as u16, order) + u16_bytes(w.y as u16, order)
            + u16_bytes(w.width, order) + u16_bytes(w.height, order) + u16_bytes(w.border_width, order),
    )
}

/// A GetGeometry reply carries, in the client's byte order, the depth in
/// byte 1, the sequence number at 2..4, a zero length, the root at 8..12, x
/// and y at 12..16, the width at 16..18, the height at 18..20 and the border
/// width at 20..22, in 32 bytes.
pub proof fn lemma_geometry_reply_fields(order: ByteOrder, w: WindowGeometry, root: u32, sequence: u16)
    ensures
        ({
            let b = geometry_reply(order, w, root, sequence);
            &&& b.len() == 32
            &&& b[0] == 1
            &&& b[1] == w.depth
            &&& u16_at(b, 2, order) == sequence
            &&& u32_at(b, 4, order) == 0
            &&& u32_at(b, 8, order) == root
            &&& u16_at(b, 12, order) == w.x as u16
            &&& u16_at(b, 14, order) == w.y as u16
            &&& u16_at(b, 16, order) == w.width
            &&& u16_at(b, 18, order) == w.height
            &&& u16_at(b, 20, order) == w.border_width
        }),
{
    let b = geometry_reply(order, w, root, sequence);
    assert(b.subrange(2, 4) =~= u16_bytes(sequence, order));
    assert(b.subrange(4, 8) =~= u32_bytes(0, order));
    assert(b.subrange(8, 12) =~= u32_bytes(root, order));
    assert(b.subrange(12, 14) =~= u16_bytes(w.x as u16, order));
    assert(b.subrange(14, 16) =~= u16_bytes(w.y as u16, order));
    assert(b.subrange(16, 18) =~= u16_bytes(w.width, order));
    assert(b.subrange(18, 20) =~= u16_bytes(w.height, order));
    assert(b.subrange(20, 22) =~= u16_bytes(w.border_width, order));
    lemma_u16_at_encoding(b, 2, sequence, order);
    lemma_u32_at_encoding(b, 4, 0, order);
    lemma_u32_at_encoding(b, 8, root, order);
    lemma_u16_at_encoding(b, 12, w.x as u16, order);
    lemma_u16_at_encoding(b, 14, w.y as u16, order);
    lemma_u16_at_encoding(b, 16, w.width, order);
    lemma_u16_at_encoding(b, 18, w.height, order);
    lemma_u16_at_encoding(b, 20, w.border_width, order);
}

/// Handler for GetGeometry requests (opcode 14)
pub struct GetGeometryHandler;

impl GetGeometryHandler {
    /// The reply for a drawable with the given geometry, under the given root.
    pub fn handle_request(
        &self,
        request: &Request,
        window: Option<WindowGeometry>,
        root: u32,
        byte_order: ByteOrder,
    ) -> (r: HandlerResult<Option<Vec<u8>>>)
        ensures
            !(request.kind is GetGeometry) || window is None <==> r is Err,
            r matches Err(e) ==> e matches X11Error::Protocol(m) && (request.kind is GetGeometry ==> m@ == id_message("GetGeometry: drawable "@, request.kind->GetGeometry_0.drawable, " does not exist"@)),
            r matches Ok(reply) ==> reply matches Some(b) && b@ == geometry_reply(
                byte_order,
                window->0,
                root,
                request.sequence_number,
            ),
    {
        let q = match &request.kind {
            RequestKind::GetGeometry(q) => q,
            _ => return Err(wrong_kind("GetGeometry", &request.kind)),
        };
        let window = match window {
            Some(w) => w,
            None => return Err(X11Error::Protocol(id_text("GetGeometry: drawable ", q.drawable, " does not exist"))),
        };
        let mut writer = EndianWriter::new(Vec::new(), byte_order);
        writer.write_u8(1);  // Reply
        writer.write_u8(window.depth);  // Depth
        writer.write_u16(request.sequence_number);  // Sequence number
        writer.write_u32(0);  // Reply length
        writer.write_u32(root);  // Root window
        writer.write_u16(window.x as u16);  // X coordinate
        writer.write_u16(window.y as u16);  // Y coordinate
        writer.write_u16(window.width);  // Width
        writer.write_u16(window.height);  // Height
        writer.write_u16(window.border_width);  // Border width
        writer.write_padding(10);  // Padding to 32 bytes
        let bytes = writer.into_buffer();
        proof {
            let tail = u32_bytes(root, byte_order) + u16_bytes(window.x as u16, byte_order)
                + u16_bytes(window.y as u16, byte_order) + u16_bytes(window.width, byte_order)
                + u16_bytes(window.height, byte_order) + u16_bytes(window.border_width, byte_order);
            assert(bytes@ =~= short_reply(byte_order, window.depth, request.sequence_number, tail));
        }
        Ok(Some(bytes))
    }
}

/// Handler for InternAtom requests (opcode 16)
pub struct InternAtomHandler;

impl InternAtomHandler {
    /// The reply naming `atom`; with only-if-exists set, a name that is not
    /// interned is answered with atom None (0), not an error.
    pub fn handle_request(&self, request: &Request, atom: Option<u32>, byte_order: ByteOrder) -> (r:
        HandlerResult<Option<Vec<u8>>>)
        ensures
            !(request.kind is InternAtom) <==> r is Err,
            r matches Err(e) ==> e is Protocol,
            r matches Ok(reply) ==> reply matches Some(b) && b@ == short_reply(
                byte_order,
                0,
                request.sequence_number,
                u32_bytes(
                    match atom {
                        Some(a) => a,
                        None => 0u32,
                    },
                    byte_order,
                ),
            ),
    {
        match &request.kind {
            RequestKind::InternAtom(_) => {},
            _ => return Err(wrong_kind("InternAtom", &request.kind)),
        }
        let atom = match atom {
            Some(a) => a,
            None => 0,
        };
        let mut writer = EndianWriter::new(Vec::new(), byte_order);
        writer.write_u8(1);  // Reply
        writer.write_u8(0);  // Unused
        writer.write_u16(request.sequence_number);  // Sequence number
        writer.write_u32(0);  // Reply length
        writer.write_u32(atom);  // Atom ID
        writer.write_padding(20);  // Padding to 32 bytes
        let bytes = writer.into_buffer();
        assert(bytes@ =~= short_reply(
            byte_order,
            0,
            request.sequence_number,
            u32_bytes(atom, byte_order),
        ));
        Ok(Some(bytes))
    }
}

/// Handler for ChangeProperty requests (opcode 18)
pub struct ChangePropertyHandler;

/// A window property: its type, format and value.
#[derive(Debug, Clone)]
pub struct PropertyValue {
    pub property_type: u32,
    pub format: u8,
    pub data: Vec<u8>,
}

/// Handler for GetProperty requests (opcode 20)
pub struct GetPropertyHandler;

/// The smaller of two integers.
pub open spec fn min_int(a: int, b: int) -> int {
    if a <= b {
        a
    } else {
        b
    }
}

/// The part of a property's value a GetProperty request asks for: from
/// `4 * long_offset` for `4 * long_length` bytes, both cut to the value.
pub open spec fn requested_range(req: GetPropertyRequest, len: nat) -> (int, int) {
    let start = min_int(4 * req.long_offset, len as int);
    let end = min_int(start + 4 * req.long_length, len as int);
    (start, end)
}

/// Whether a GetProperty request's type matches the property (0 is AnyPropertyType).
pub open spec fn property_type_matches(req: GetPropertyRequest, p: PropertyValue) -> bool {
    req.property_type == 0 || req.property_type == p.property_type
}

/// The reply to GetProperty for a property of the requested type: the
/// requested part of its value.
pub open spec fn matched_property_bytes(
    req: GetPropertyRequest,
    p: PropertyValue,
    order: ByteOrder,
    sequence: u16,
) -> Seq<u8> {
    let (start, end) = requested_range(req, p.data@.len());
    let value = p.data@.subrange(start, end);
    let unit: nat = if p.format == 8 {
        1
    } else if p.format == 16 {
        2
    } else {
        4
    };
    seq![1u8, p.format] + u16_bytes(sequence, order) + u32_bytes(((value.len() + 3) / 4) as u32, order)
        + u32_bytes(p.property_type, order) + u32_bytes((p.data@.len() - end) as u32, order)
        + u32_bytes((value.len() / unit) as u32, order) + zeros(12) + value + zeros(
        pad_to(value.len(), 4),
    )
}

/// The reply to GetProperty when there is no property of the requested type:
/// format 0, no value.
pub open spec fn empty_property_bytes(order: ByteOrder, sequence: u16) -> Seq<u8> {
    seq![1u8, 0u8] + u16_bytes(sequence, order) + u32_bytes(0, order) + u32_bytes(0, order)
        + u32_bytes(0, order) + u32_bytes(0, order) + zeros(12)
}

/// The reply to GetProperty: the requested part of a matching property, or
/// an empty reply of format 0 when there is no property or its type differs.
pub open spec fn property_reply_bytes(
    req: GetPropertyRequest,
    prop: Option<PropertyValue>,
    order: ByteOrder,
    sequence: u16,
) -> Seq<u8> {
    match prop {
        Some(p) => if property_type_matches(req, p) {
            matched_property_bytes(req, p, order, sequence)
        } else {
            empty_property_bytes(order, sequence)
        },
        None => empty_property_bytes(order, sequence),
    }
}

/// Whether GetProperty deletes the property: delete was asked, the
/// property matched, and the reply reached the end of its value.
pub open spec fn property_deleted(req: GetPropertyRequest, prop: Option<PropertyValue>) -> bool {
    match prop {
        Some(p) => property_type_matches(req, p) && req.delete != 0 && requested_range(
            req,
            p.data@.len(),
        ).1 == p.data@.len(),
        None => false,
    }
}

fn property_range(req: &GetPropertyRequest, len: usize) -> (r: (usize, usize))
    ensures
        r.0 == requested_range(*req, len as nat).0,
        r.1 == requested_range(*req, len as nat).1,
        r.0 <= r.1 <= len,
{
    let offset_bytes = (req.long_offset as u64) * 4;
    let requested_bytes = (req.long_length as u64) * 4;
    let start64 = if offset_bytes < len as u64 {
        offset_bytes
    } else {
        len as u64
    };
    let end64 = if start64 + requested_bytes < len as u64 {
        start64 + requested_bytes
    } else {
        len as u64
    };
    (start64 as usize, end64 as usize)
}

/// The reply for a property value: format, type, bytes after, the value and
/// its padding.
fn write_property_value(
    byte_order: ByteOrder,
    sequence: u16,
    format: u8,
    property_type: u32,
    value: &[u8],
    bytes_after: usize,
    value_units: usize,
) -> (r: Vec<u8>)
    requires
        value@.len() < 0xffff_fffc,
    ensures
        r@ == seq![1u8, format] + u16_bytes(sequence, byte_order) + u32_bytes(
            ((value@.len() + 3) / 4) as u32,
            byte_order,
        ) + u32_bytes(property_type, byte_order) + u32_bytes(bytes_after as u32, byte_order)
            + u32_bytes(value_units as u32, byte_order) + zeros(12) + value@ + zeros(
            pad_to(value@.len(), 4),
        ),
{
    let mut writer = EndianWriter::new(Vec::new(), byte_order);
    writer.write_u8(1);  // Reply
    writer.write_u8(format);
    writer.write_u16(sequence);
    writer.write_u32((value.len() as u32 + 3) / 4);  // Reply length in 4-byte units
    writer.write_u32(property_type);
    writer.write_u32(bytes_after as u32);
    writer.write_u32(value_units as u32);
    writer.write_padding(12);
    writer.write_bytes(value);
    let pad = (4 - (value.len() % 4)) % 4;
    writer.write_padding(pad);
    let bytes = writer.into_buffer();
    assert(bytes@ =~= seq![1u8, format] + u16_bytes(sequence, byte_order) + u32_bytes(
        ((value@.len() + 3) / 4) as u32,
        byte_order,
    ) + u32_bytes(property_type, byte_order) + u32_bytes(bytes_after as u32, byte_order)
        + u32_bytes(value_units as u32, byte_order) + zeros(12) + value@ + zeros(
        pad_to(value@.len(), 4),
    ));
    bytes
}

fn matched_property_reply(
    req: &GetPropertyRequest,
    p: &PropertyValue,
    byte_order: ByteOrder,
    sequence: u16,
) -> (r: (Vec<u8>, bool))
    requires
        p.data@.len() < 0xffff_fffc,
    ensures
        r.0@ == matched_property_bytes(*req, *p, byte_order, sequence),
        r.1 == (req.delete != 0 && requested_range(*req, p.data@.len()).1 == p.data@.len()),
{
    let unit_bytes: usize = if p.format == 8 {
        1
    } else if p.format == 16 {
        2
    } else {
        4
    };
    let len = p.data.len();
    let (start, end) = property_range(req, len);
    let value = &p.data.as_slice()[start..end];
    let bytes_after = len - end;
    let value_units = value.len() / unit_bytes;
    let bytes = write_property_value(
        byte_order,
        sequence,
        p.format,
        p.property_type,
        value,
        bytes_after,
        value_units,
    );
    (bytes, req.delete != 0 && bytes_after == 0)
}

fn empty_property_reply(byte_order: ByteOrder, sequence: u16) -> (r: Vec<u8>)
    ensures
        r@ == empty_property_bytes(byte_order, sequence),
{
    let mut writer = EndianWriter::new(Vec::new(), byte_order);
    writer.write_u8(1);  // Reply
    writer.write_u8(0);  // Format (0 = property doesn't exist)
    writer.write_u16(sequence);
    writer.write_u32(0);  // Reply length
    writer.write_u32(0);  // Type (None)
    writer.write_u32(0);  // Bytes after
    writer.write_u32(0);  // Value length
    writer.write_padding(12);
    let bytes = writer.into_buffer();
    assert(bytes@ =~= empty_property_bytes(byte_order, sequence));
    bytes
}

impl GetPropertyHandler {
    /// The reply to a GetProperty request on a window whose property is
    /// `property` (None when the window has none), and whether the property
    /// is to be deleted now.
    pub fn handle_request(
        &self,
        request: &Request,
        window_exists: bool,
        property: Option<&PropertyValue>,
        byte_order: ByteOrder,
    ) -> (r: HandlerResult<(Option<Vec<u8>>, bool)>)
        requires
            property matches Some(p) ==> p.data@.len() < 0xffff_fffc,
        ensures
            !(request.kind is GetProperty) || !window_exists <==> r is Err,
            r matches Err(e) ==> e matches X11Error::Protocol(m) && (request.kind is GetProperty ==> m@ == id_message("GetProperty: window "@, request.kind->GetProperty_0.window, " does not exist"@)),
            r matches Ok((reply, delete)) ==> {
                let req = request.kind->GetProperty_0;
                let prop = match property {
                    Some(p) => Some(*p),
                    None => None,
                };
                &&& reply matches Some(b) && b@ == property_reply_bytes(
                    req,
                    prop,
                    byte_order,
                    request.sequence_number,
                )
                &&& delete == property_deleted(req, prop)
            },
    {
        let req = match &request.kind {
            RequestKind::GetProperty(req) => req,
            _ => return Err(wrong_kind("GetProperty", &request.kind)),
        };
        if !window_exists {
            return Err(X11Error::Protocol(id_text("GetProperty: window ", req.window, " does not exist")));
        }
        match property {
            Some(p) => {
                if req.property_type == 0 || req.property_type == p.property_type {
                    let (bytes, delete) = matched_property_reply(
                        req,
                        p,
                        byte_order,
                        request.sequence_number,
                    );
                    Ok((Some(bytes), delete))
                } else {
                    Ok((Some(empty_property_reply(byte_order, request.sequence_number)), false))
                }
            },
            None => Ok((Some(empty_property_reply(byte_order, request.sequence_number)), false)),
        }
    }
}

/// A colormap entry's color.
#[derive(Debug, Clone, Copy)]
pub struct ColorEntry {
    pub red: u16,
    pub green: u16,
    pub blue: u16,
}

/// The RGB entries of a QueryColors reply: each color, then two unused
/// bytes; a pixel the colormap lacks reads as black.
pub open spec fn colors_bytes(colors: Seq<Option<ColorEntry>>, order: ByteOrder) -> Seq<u8>
    decreases colors.len(),
{
    if colors.len() == 0 {
        Seq::empty()
    } else {
        let c = match colors.last() {
            Some(c) => c,
            None => ColorEntry { red: 0, green: 0, blue: 0 },
        };
        colors_bytes(colors.drop_last(), order) + u16_bytes(c.red, order) + u16_bytes(c.green, order)
            + u16_bytes(c.blue, order) + u16_bytes(0, order)
    }
}

/// Handler for QueryColors requests (opcode 91)
pub struct QueryColorsHandler;

impl QueryColorsHandler {
    /// The reply for the request's pixels, given what the colormap holds for
    /// each (`colors[i]` for the i-th pixel; `None` when the colormap does not
    /// exist).
    pub fn handle_request(
        &self,
        request: &Request,
        colors: Option<&Vec<Option<ColorEntry>>>,
        byte_order: ByteOrder,
    ) -> (r: HandlerResult<Option<Vec<u8>>>)
        requires
            request.kind matches RequestKind::QueryColors(q) ==> q.pixels@.len() * 2 <= u32::MAX
                && (colors matches Some(c) ==> c@.len() == q.pixels@.len()),
        ensures
            !(request.kind is QueryColors) || colors is None <==> r is Err,
            r matches Err(e) ==> e matches X11Error::Protocol(m) && (request.kind is QueryColors ==> m@ == id_message("QueryColors: colormap "@, request.kind->QueryColors_0.colormap, " does not exist"@)),
            r matches Ok(reply) ==> {
                let n = request.kind->QueryColors_0.pixels@.len();
                reply matches Some(b) && b@ == seq![1u8, 0u8] + u16_bytes(
                    request.sequence_number,
                    byte_order,
                ) + u32_bytes((n * 2) as u32, byte_order) + u16_bytes(n as u16, byte_order)
                    + zeros(22) + colors_bytes(colors->0@, byte_order)
            },
    {
        let query = match &request.kind {
            RequestKind::QueryColors(req) => req,
            _ => return Err(wrong_kind("QueryColors", &request.kind)),
        };
        let colors = match colors {
            Some(c) => c,
            None => return Err(X11Error::Protocol(id_text("QueryColors: colormap ", query.colormap, " does not exist"))),
        };
        let n = query.pixels.len() as u32;
        let mut writer = EndianWriter::new(Vec::new(), byte_order);
        writer.write_u8(1);  // Reply
        writer.write_u8(0);  // Unused
        writer.write_u16(request.sequence_number);
        writer.write_u32(n * 2);  // Reply length in 4-byte units (n * 8 bytes / 4)
        writer.write_u16(n as u16);  // Number of RGB entries
        writer.write_padding(22);
        let ghost head = writer.contents();
        let mut i: usize = 0;
        while i < colors.len()
            invariant
                i <= colors@.len(),
                writer.order() == byte_order,
                writer.contents() == head + colors_bytes(colors@.take(i as int), byte_order),
            decreases colors@.len() - i,
        {
            proof {
                assert(colors@.take(i + 1).drop_last() =~= colors@.take(i as int));
            }
            let color = match colors[i] {
                Some(c) => c,
                None => ColorEntry { red: 0, green: 0, blue: 0 },
            };
            writer.write_u16(color.red);
            writer.write_u16(color.green);
            writer.write_u16(color.blue);
            writer.write_u16(0);  // Unused
            i = i + 1;
            assert(writer.contents() =~= head + colors_bytes(colors@.take(i as int), byte_order));
        }
        assert(colors@.take(i as int) =~= colors@);
        let bytes = writer.into_buffer();
        assert(bytes@ =~= seq![1u8, 0u8] + u16_bytes(request.sequence_number, byte_order)
            + u32_bytes((n * 2) as u32, byte_order) + u16_bytes(n as u16, byte_order) + zeros(22)
            + colors_bytes(colors@, byte_order));
        Ok(Some(bytes))
    }
}

/// Handler for CreatePixmap requests (opcode 53)
pub struct CreatePixmapHandler;

/// Handler for FreePixmap requests (opcode 54)
pub struct FreePixmapHandler;

/// Handler for GetInputFocus requests (opcode 43)
pub struct GetInputFocusHandler;

impl GetInputFocusHandler {
    /// No SetInputFocus support yet, so the reply reports the server's
    /// startup default: focus follows the pointer (revert-to PointerRoot),
    /// currently over the root window.
    pub fn handle_request(&self, request: &Request, root: u32, byte_order: ByteOrder) -> (r:
        HandlerResult<Option<Vec<u8>>>)
        ensures
            !(request.kind is GetInputFocus) <==> r is Err,
            r matches Err(e) ==> e is Protocol,
            r matches Ok(reply) ==> reply matches Some(b) && b@ == short_reply(
                byte_order,
                1,
                request.sequence_number,
                u32_bytes(root, byte_order),
            ),
    {
        match &request.kind {
            RequestKind::GetInputFocus(_) => {},
            _ => return Err(wrong_kind("GetInputFocus", &request.kind)),
        }
        let mut writer = EndianWriter::new(Vec::new(), byte_order);
        writer.write_u8(1);  // Reply
        writer.write_u8(1);  // revert_to = PointerRoot
        writer.write_u16(request.sequence_number);
        writer.write_u32(0);  // Reply length
        writer.write_u32(root);  // focus
        writer.write_padding(20);
        let bytes = writer.into_buffer();
        assert(bytes@ =~= short_reply(
            byte_order,
            1,
            request.sequence_number,
            u32_bytes(root, byte_order),
        ));
        Ok(Some(bytes))
    }
}

/// Handler for PutImage requests (opcode 72)
pub struct PutImageHandler;

/// Handler for CopyArea requests (opcode 62)
pub struct CopyAreaHandler;

/// Handler for OpenFont requests (opcode 45)
pub struct OpenFontHandler;

/// Handler for CreateGlyphCursor requests (opcode 94)
pub struct CreateGlyphCursorHandler;

/// The grab a GrabPointer request asks for.
#[derive(Debug, Clone, Copy, PartialEq, Eq, Structural)]
pub struct PointerGrab {
    pub grab_window: u32,
    pub grabbing_client: u32,
    pub owner_events: bool,
    pub event_mask: u32,
    pub confine_to: Option<u32>,
    pub cursor: Option<u32>,
    pub time: u32,
}

/// The outcome of a pointer grab, with its status byte on the wire.
#[derive(Debug, Clone, Copy, PartialEq, Eq, Structural)]
pub enum GrabResult {
    Success,
    AlreadyGrabbed,
    InvalidTime,
    NotViewable,
    Frozen,
}

impl GrabResult {
    pub open spec fn spec_status(self) -> u8 {
        match self {
            GrabResult::Success => 0,
            GrabResult::AlreadyGrabbed => 1,
            GrabResult::InvalidTime => 2,
            GrabResult::NotViewable => 3,
            GrabResult::Frozen => 4,
        }
    }

    /// The GrabStatus byte of this outcome.
    pub fn to_x11_status(self) -> (s: u8)
        ensures
            s == self.spec_status(),
    {
        match self {
            GrabResult::Success => 0,
            GrabResult::AlreadyGrabbed => 1,
            GrabResult::InvalidTime => 2,
            GrabResult::NotViewable => 3,
            GrabResult::Frozen => 4,
        }
    }
}

/// Handler for GrabPointer requests (opcode 26)
pub struct GrabPointerHandler;

impl GrabPointerHandler {
    /// The grab a request asks for on behalf of `client_id`; a confine-to
    /// window or cursor of 0 means none.
    pub fn pointer_grab(request: &GrabPointerRequest, client_id: u32) -> (g: PointerGrab)
        ensures
            g == (PointerGrab {
                grab_window: request.grab_window,
                grabbing_client: client_id,
                owner_events: request.owner_events != 0,
                event_mask: request.event_mask,
                confine_to: if request.confine_to == 0 {
                    None
                } else {
                    Some(request.confine_to)
                },
                cursor: if request.cursor == 0 {
                    None
                } else {
                    Some(request.cursor)
                },
                time: request.time,
            }),
    {
        PointerGrab {
            grab_window: request.grab_window,
            grabbing_client: client_id,
            owner_events: request.owner_events != 0,
            event_mask: request.event_mask,
            confine_to: if request.confine_to == 0 {
                None
            } else {
                Some(request.confine_to)
            },
            cursor: if request.cursor == 0 {
                None
            } else {
                Some(request.cursor)
            },
            time: request.time,
        }
    }

    /// The reply carrying a grab's status: its 8-byte header and 20 zero
    /// bytes (28 bytes in all).
    pub fn reply(status: u8, sequence: u16, byte_order: ByteOrder) -> (b: Vec<u8>)
        ensures
            b@ == seq![1u8, status] + u16_bytes(sequence, byte_order) + u32_bytes(0, byte_order)
                + zeros(20),
    {
        let mut response = EndianWriter::new(Vec::new(), byte_order);
        response.write_u8(1);  // Reply
        response.write_u8(status);
        response.write_u16(sequence);
        response.write_u32(0);  // Reply length
        response.write_padding(20);
        let bytes = response.into_buffer();
        assert(bytes@ =~= seq![1u8, status] + u16_bytes(sequence, byte_order) + u32_bytes(
            0,
            byte_order,
        ) + zeros(20));
        bytes
    }

    /// The status a GrabPointer request gets: NotViewable for a grab window
    /// that does not exist or is not viewable, else the outcome of the grab.
    pub fn grab_status(window_exists: bool, viewable: bool, grab: GrabResult) -> (s: u8)
        ensures
            s == if !window_exists || !viewable {
                GrabResult::NotViewable.spec_status()
            } else {
                grab.spec_status()
            },
    {
        if !window_exists || !viewable {
            GrabResult::NotViewable.to_x11_status()
        } else {
            grab.to_x11_status()
        }
    }
}

// ---------------------------------------------------------------------------
// Ownership and drawable checks
// ---------------------------------------------------------------------------

/// Where a drawing request draws: the window or the pixmap its DRAWABLE names.
#[derive(Debug, Clone, Copy, PartialEq, Eq, Structural)]
pub enum DrawTarget {
    Window,
    Pixmap,
}

/// What a DRAWABLE resolves to for `client_id`: a window by that id (which
/// the client must own), else a pixmap by that id (which the client must
/// own). `window_owner` is `None` when there is no such window, else the
/// window's owner (`None` for a window no client owns); `pixmap_owner` is
/// `None` when there is no such pixmap.
pub open spec fn spec_resolve_drawable(
    window_owner: Option<Option<u32>>,
    pixmap_owner: Option<u32>,
    client_id: u32,
) -> Option<DrawTarget> {
    match window_owner {
        Some(owner) => if owner == Some(client_id) {
            Some(DrawTarget::Window)
        } else {
            None
        },
        None => match pixmap_owner {
            Some(owner) => if owner == client_id {
                Some(DrawTarget::Pixmap)
            } else {
                None
            },
            None => None,
        },
    }
}

/// The message when `client_id` may not use a window: another client owns
/// it, or there is none. `owner_before` leads the first ("PolyArc: client "),
/// `missing_before` the second ("PolyArc: window ").
pub open spec fn window_error(
    owner_before: Seq<char>,
    missing_before: Seq<char>,
    drawable: u32,
    window_owner: Option<Option<u32>>,
    client_id: u32,
) -> Seq<char> {
    match window_owner {
        Some(_) => two_id_message(owner_before, client_id, " does not own window "@, drawable),
        None => id_message(missing_before, drawable, " does not exist"@),
    }
}

/// The message when a DRAWABLE does not resolve for `client_id`: the window,
/// else the pixmap, by that id belongs to another client, or neither exists.
pub open spec fn drawable_error(
    owner_before: Seq<char>,
    missing_before: Seq<char>,
    drawable: u32,
    window_owner: Option<Option<u32>>,
    pixmap_owner: Option<u32>,
    client_id: u32,
) -> Seq<char> {
    if window_owner is None && pixmap_owner is Some {
        two_id_message(owner_before, client_id, " does not own pixmap "@, drawable)
    } else {
        window_error(owner_before, missing_before, drawable, window_owner, client_id)
    }
}

/// Resolve a drawing request's DRAWABLE, trying a window first, then a pixmap.
pub fn resolve_drawable(
    owner_before: &str,
    missing_before: &str,
    drawable: u32,
    window_owner: Option<Option<u32>>,
    pixmap_owner: Option<u32>,
    client_id: u32,
) -> (r: Result<DrawTarget, X11Error>)
    ensures
        r is Ok <==> spec_resolve_drawable(window_owner, pixmap_owner, client_id) is Some,
        r matches Ok(t) ==> spec_resolve_drawable(window_owner, pixmap_owner, client_id) == Some(t),
        r matches Err(e) ==> e matches X11Error::Protocol(m) && m@ == drawable_error(
            owner_before@,
            missing_before@,
            drawable,
            window_owner,
            pixmap_owner,
            client_id,
        ),
{
    match window_owner {
        Some(owner) => {
            if owner != Some(client_id) {
                return Err(X11Error::Protocol(two_id_text(owner_before, client_id, " does not own window ", drawable)));
            }
            Ok(DrawTarget::Window)
        },
        None => match pixmap_owner {
            Some(owner) => {
                if owner != client_id {
                    return Err(X11Error::Protocol(two_id_text(owner_before, client_id, " does not own pixmap ", drawable)));
                }
                Ok(DrawTarget::Pixmap)
            },
            None => Err(X11Error::Protocol(id_text(missing_before, drawable, " does not exist"))),
        },
    }
}

/// Check that a window exists and `client_id` owns it. The message names the
/// client and the window when another client owns it (after
/// `owner_before`), the window when there is none (after `missing_before`).
pub fn check_window_owner(
    owner_before: &str,
    missing_before: &str,
    window: u32,
    window_owner: Option<Option<u32>>,
    client_id: u32,
) -> (r: Result<(), X11Error>)
    ensures
        r is Ok <==> window_owner == Some(Some(client_id)),
        r matches Err(e) ==> e matches X11Error::Protocol(m) && m@ == window_error(
            owner_before@,
            missing_before@,
            window,
            window_owner,
            client_id,
        ),
{
    match window_owner {
        Some(owner) => {
            if owner != Some(client_id) {
                return Err(X11Error::Protocol(two_id_text(owner_before, client_id, " does not own window ", window)));
            }
            Ok(())
        },
        None => Err(X11Error::Protocol(id_text(missing_before, window, " does not exist"))),
    }
}

/// The message when `client_id` may not use a graphics context: another
/// client owns it, or there is none.
pub open spec fn gc_error(
    owner_before: Seq<char>,
    missing_before: Seq<char>,
    gc: u32,
    gc_owner: Option<u32>,
    client_id: u32,
) -> Seq<char> {
    match gc_owner {
        Some(_) => two_id_message(owner_before, client_id, " does not own graphics context "@, gc),
        None => id_message(missing_before, gc, " does not exist"@),
    }
}

/// Check that a graphics context exists and `client_id` owns it.
pub fn check_gc_owner(
    owner_before: &str,
    missing_before: &str,
    gc: u32,
    gc_owner: Option<u32>,
    client_id: u32,
) -> (r: Result<(), X11Error>)
    ensures
        r is Ok <==> gc_owner == Some(client_id),
        r matches Err(e) ==> e matches X11Error::Protocol(m) && m@ == gc_error(
            owner_before@,
            missing_before@,
            gc,
            gc_owner,
            client_id,
        ),
{
    match gc_owner {
        Some(owner) => {
            if owner != client_id {
                return Err(X11Error::Protocol(two_id_text(owner_before, client_id, " does not own graphics context ", gc)));
            }
            Ok(())
        },
        None => Err(X11Error::Protocol(id_text(missing_before, gc, " does not exist"))),
    }
}

/// Handler for PolyArc requests
pub struct PolyArcHandler;

impl PolyArcHandler {
    /// The foreground to draw with on the request's window: the window must
    /// exist and belong to the client, and the graphics context must exist
    /// (`gc_foreground` is `None` when it does not).
    pub fn handle_request(
        &self,
        request: &Request,
        window_owner: Option<Option<u32>>,
        gc_foreground: Option<u32>,
        client_id: u32,
    ) -> (r: HandlerResult<u32>)
        ensures
            r is Ok <==> request.kind is PolyArc && window_owner == Some(Some(client_id))
                && gc_foreground is Some,
            r matches Ok(fg) ==> Some(fg) == gc_foreground,
            r matches Err(e) ==> e matches X11Error::Protocol(m) && (request.kind is PolyArc ==> m@
                == if window_owner != Some(Some(client_id)) {
                window_error(
                    "PolyArc: client "@,
                    "PolyArc: window "@,
                    request.kind->PolyArc_0.drawable,
                    window_owner,
                    client_id,
                )
            } else {
                id_message("PolyArc: graphics context "@, request.kind->PolyArc_0.gc, " does not exist"@)
            }),
    {
        let q = match &request.kind {
            RequestKind::PolyArc(q) => q,
            _ => return Err(wrong_kind("PolyArc", &request.kind)),
        };
        check_window_owner("PolyArc: client ", "PolyArc: window ", q.drawable, window_owner, client_id)?;
        match gc_foreground {
            Some(fg) => Ok(fg),
            None => Err(X11Error::Protocol(id_text("PolyArc: graphics context ", q.gc, " does not exist"))),
        }
    }
}

/// Handler for FillArc requests
pub struct FillArcHandler;

impl FillArcHandler {
    /// Where to draw and with which foreground: the drawable resolved for the
    /// client, and the foreground of the request's graphics context
    /// (`gc_foreground` is `None` when it does not exist).
    pub fn handle_request(
        &self,
        request: &Request,
        window_owner: Option<Option<u32>>,
        pixmap_owner: Option<u32>,
        gc_foreground: Option<u32>,
        client_id: u32,
    ) -> (r: HandlerResult<(DrawTarget, u32)>)
        ensures
            r is Ok <==> request.kind is FillArc && spec_resolve_drawable(
                window_owner,
                pixmap_owner,
                client_id,
            ) is Some && gc_foreground is Some,
            r matches Ok((t, fg)) ==> Some(t) == spec_resolve_drawable(
                window_owner,
                pixmap_owner,
                client_id,
            ) && Some(fg) == gc_foreground,
            r matches Err(e) ==> e matches X11Error::Protocol(m) && (request.kind is FillArc ==> m@
                == if spec_resolve_drawable(window_owner, pixmap_owner, client_id) is None {
                drawable_error(
                    "FillArc: client "@,
                    "FillArc: drawable "@,
                    request.kind->FillArc_0.drawable,
                    window_owner,
                    pixmap_owner,
                    client_id,
                )
            } else {
                id_message("FillArc: graphics context "@, request.kind->FillArc_0.gc, " does not exist"@)
            }),
    {
        let q = match &request.kind {
            RequestKind::FillArc(q) => q,
            _ => return Err(wrong_kind("FillArc", &request.kind)),
        };
        let target = resolve_drawable(
            "FillArc: client ",
            "FillArc: drawable ",
            q.drawable,
            window_owner,
            pixmap_owner,
            client_id,
        )?;
        let foreground = match gc_foreground {
            Some(fg) => fg,
            None => return Err(X11Error::Protocol(id_text("FillArc: graphics context ", q.gc, " does not exist"))),
        };
        Ok((target, foreground))
    }
}

/// Handler for PolyLine requests
pub struct PolyLineHandler;

impl PolyLineHandler {
    /// The foreground to draw with on the request's window: the window must
    /// exist and belong to the client, and the graphics context must exist
    /// (`gc_foreground` is `None` when it does not).
    pub fn handle_request(
        &self,
        request: &Request,
        window_owner: Option<Option<u32>>,
        gc_foreground: Option<u32>,
        client_id: u32,
    ) -> (r: HandlerResult<u32>)
        ensures
            r is Ok <==> request.kind is PolyLine && window_owner == Some(Some(client_id))
                && gc_foreground is Some,
            r matches Ok(fg) ==> Some(fg) == gc_foreground,
            r matches Err(e) ==> e matches X11Error::Protocol(m) && (request.kind is PolyLine ==> m@
                == if window_owner != Some(Some(client_id)) {
                window_error(
                    "PolyLine: client "@,
                    "PolyLine: window "@,
                    request.kind->PolyLine_0.drawable,
                    window_owner,
                    client_id,
                )
            } else {
                id_message("PolyLine: graphics context "@, request.kind->PolyLine_0.gc, " does not exist"@)
            }),
    {
        let q = match &request.kind {
            RequestKind::PolyLine(q) => q,
            _ => return Err(wrong_kind("PolyLine", &request.kind)),
        };
        check_window_owner("PolyLine: client ", "PolyLine: window ", q.drawable, window_owner, client_id)?;
        match gc_foreground {
            Some(fg) => Ok(fg),
            None => Err(X11Error::Protocol(id_text("PolyLine: graphics context ", q.gc, " does not exist"))),
        }
    }
}

/// Handler for PolyFillRectangle requests
pub struct PolyFillRectangleHandler;

impl PolyFillRectangleHandler {
    /// Where to draw and with which foreground: the drawable resolved for the
    /// client, and the foreground of the request's graphics context
    /// (`gc_foreground` is `None` when it does not exist).
    pub fn handle_request(
        &self,
        request: &Request,
        window_owner: Option<Option<u32>>,
        pixmap_owner: Option<u32>,
        gc_foreground: Option<u32>,
        client_id: u32,
    ) -> (r: HandlerResult<(DrawTarget, u32)>)
        ensures
            r is Ok <==> request.kind is PolyFillRectangle && spec_resolve_drawable(
                window_owner,
                pixmap_owner,
                client_id,
            ) is Some && gc_foreground is Some,
            r matches Ok((t, fg)) ==> Some(t) == spec_resolve_drawable(
                window_owner,
                pixmap_owner,
                client_id,
            ) && Some(fg) == gc_foreground,
            r matches Err(e) ==> e matches X11Error::Protocol(m) && (request.kind is PolyFillRectangle ==> m@
                == if spec_resolve_drawable(window_owner, pixmap_owner, client_id) is None {
                drawable_error(
                    "PolyFillRectangle: client "@,
                    "PolyFillRectangle: drawable "@,
                    request.kind->PolyFillRectangle_0.drawable,
                    window_owner,
                    pixmap_owner,
                    client_id,
                )
            } else {
                id_message("PolyFillRectangle: graphics context "@, request.kind->PolyFillRectangle_0.gc, " does not exist"@)
            }),
    {
        let q = match &request.kind {
            RequestKind::PolyFillRectangle(q) => q,
            _ => return Err(wrong_kind("PolyFillRectangle", &request.kind)),
        };
        let target = resolve_drawable(
            "PolyFillRectangle: client ",
            "PolyFillRectangle: drawable ",
            q.drawable,
            window_owner,
            pixmap_owner,
            client_id,
        )?;
        let foreground = match gc_foreground {
            Some(fg) => fg,
            None => return Err(X11Error::Protocol(id_text("PolyFillRectangle: graphics context ", q.gc, " does not exist"))),
        };
        Ok((target, foreground))
    }
}

/// Handler for DestroyWindow requests
pub struct DestroyWindowHandler;

impl DestroyWindowHandler {
    /// Whether the request may proceed: the window exists and the client owns it.
    pub fn handle_request(&self, request: &Request, window_owner: Option<Option<u32>>, client_id: u32) -> (r: HandlerResult<Option<Vec<u8>>>)
        ensures
            r is Ok <==> request.kind is DestroyWindow && window_owner == Some(Some(client_id)),
            r matches Ok(reply) ==> reply is None,
            r matches Err(e) ==> e matches X11Error::Protocol(m) && (request.kind is DestroyWindow ==> m@ == window_error("Client "@, "Window "@, request.kind->DestroyWindow_0.window, window_owner, client_id)),
    {
        let q = match &request.kind {
            RequestKind::DestroyWindow(q) => q,
            _ => return Err(wrong_kind("DestroyWindow", &request.kind)),
        };
        check_window_owner("Client ", "Window ", q.window, window_owner, client_id)?;
        Ok(None)
    }
}

/// Handler for MapWindow requests
pub struct MapWindowHandler;

impl MapWindowHandler {
    /// Whether the request may proceed: the window exists and the client owns it.
    pub fn handle_request(&self, request: &Request, window_owner: Option<Option<u32>>, client_id: u32) -> (r: HandlerResult<Option<Vec<u8>>>)
        ensures
            r is Ok <==> request.kind is MapWindow && window_owner == Some(Some(client_id)),
            r matches Ok(reply) ==> reply is None,
            r matches Err(e) ==> e matches X11Error::Protocol(m) && (request.kind is MapWindow ==> m@ == window_error("Client "@, "Window "@, request.kind->MapWindow_0.window, window_owner, client_id)),
    {
        let q = match &request.kind {
            RequestKind::MapWindow(q) => q,
            _ => return Err(wrong_kind("MapWindow", &request.kind)),
        };
        check_window_owner("Client ", "Window ", q.window, window_owner, client_id)?;
        Ok(None)
    }
}

/// Handler for UnmapWindow requests
pub struct UnmapWindowHandler;

impl UnmapWindowHandler {
    /// Whether the request may proceed: the window exists and the client owns it.
    pub fn handle_request(&self, request: &Request, window_owner: Option<Option<u32>>, client_id: u32) -> (r: HandlerResult<Option<Vec<u8>>>)
        ensures
            r is Ok <==> request.kind is UnmapWindow && window_owner == Some(Some(client_id)),
            r matches Ok(reply) ==> reply is None,
            r matches Err(e) ==> e matches X11Error::Protocol(m) && (request.kind is UnmapWindow ==> m@ == window_error("Client "@, "Window "@, request.kind->UnmapWindow_0.window, window_owner, client_id)),
    {
        let q = match &request.kind {
            RequestKind::UnmapWindow(q) => q,
            _ => return Err(wrong_kind("UnmapWindow", &request.kind)),
        };
        check_window_owner("Client ", "Window ", q.window, window_owner, client_id)?;
        Ok(None)
    }
}

impl PutImageHandler {
    /// Whether the request may proceed: the drawable exists (as a window or a
    /// pixmap) and the client owns the graphics context.
    pub fn handle_request(
        &self,
        request: &Request,
        drawable_exists: bool,
        gc_owner: Option<u32>,
        client_id: u32,
    ) -> (r: HandlerResult<Option<Vec<u8>>>)
        ensures
            r is Ok <==> request.kind is PutImage && drawable_exists && gc_owner == Some(client_id),
            r matches Ok(reply) ==> reply is None,
            r matches Err(e) ==> e matches X11Error::Protocol(m) && (request.kind is PutImage ==> m@
                == if !drawable_exists {
                id_message("PutImage: drawable "@, request.kind->PutImage_0.drawable, " does not exist"@)
            } else {
                gc_error(
                    "PutImage: client "@,
                    "PutImage: graphics context "@,
                    request.kind->PutImage_0.gc,
                    gc_owner,
                    client_id,
                )
            }),
    {
        let q = match &request.kind {
            RequestKind::PutImage(q) => q,
            _ => return Err(wrong_kind("PutImage", &request.kind)),
        };
        if !drawable_exists {
            return Err(X11Error::Protocol(id_text("PutImage: drawable ", q.drawable, " does not exist")));
        }
        check_gc_owner("PutImage: client ", "PutImage: graphics context ", q.gc, gc_owner, client_id)?;
        Ok(None)
    }
}

impl CopyAreaHandler {
    /// Whether the request may proceed: both drawables exist and the client
    /// owns the graphics context.
    pub fn handle_request(
        &self,
        request: &Request,
        src_exists: bool,
        dst_exists: bool,
        gc_owner: Option<u32>,
        client_id: u32,
    ) -> (r: HandlerResult<Option<Vec<u8>>>)
        ensures
            r is Ok <==> request.kind is CopyArea && src_exists && dst_exists && gc_owner == Some(
                client_id,
            ),
            r matches Ok(reply) ==> reply is None,
            r matches Err(e) ==> e matches X11Error::Protocol(m) && (request.kind is CopyArea ==> m@
                == if !src_exists {
                id_message(
                    "CopyArea: source drawable "@,
                    request.kind->CopyArea_0.src_drawable,
                    " does not exist"@,
                )
            } else if !dst_exists {
                id_message(
                    "CopyArea: destination drawable "@,
                    request.kind->CopyArea_0.dst_drawable,
                    " does not exist"@,
                )
            } else {
                gc_error(
                    "CopyArea: client "@,
                    "CopyArea: graphics context "@,
                    request.kind->CopyArea_0.gc,
                    gc_owner,
                    client_id,
                )
            }),
    {
        let q = match &request.kind {
            RequestKind::CopyArea(q) => q,
            _ => return Err(wrong_kind("CopyArea", &request.kind)),
        };
        if !src_exists {
            return Err(X11Error::Protocol(id_text("CopyArea: source drawable ", q.src_drawable, " does not exist")));
        }
        if !dst_exists {
            return Err(X11Error::Protocol(id_text("CopyArea: destination drawable ", q.dst_drawable, " does not exist")));
        }
        check_gc_owner("CopyArea: client ", "CopyArea: graphics context ", q.gc, gc_owner, client_id)?;
        Ok(None)
    }
}

impl CreatePixmapHandler {
    /// Whether the pixmap may be created: the drawable exists and the pixmap
    /// id is in the client's resource range.
    pub fn handle_request(
        &self,
        request: &Request,
        drawable_exists: bool,
        owns_resource: bool,
    ) -> (r: HandlerResult<Option<Vec<u8>>>)
        ensures
            r is Ok <==> request.kind is CreatePixmap && drawable_exists && owns_resource,
            r matches Ok(reply) ==> reply is None,
            r matches Err(e) ==> e matches X11Error::Protocol(m) && (request.kind is CreatePixmap ==> m@ == if !drawable_exists { id_message("CreatePixmap: drawable "@, request.kind->CreatePixmap_0.drawable, " does not exist"@) } else { id_message("CreatePixmap: pixmap ID "@, request.kind->CreatePixmap_0.pid, " is not within client's resource range"@) }),
    {
        let q = match &request.kind {
            RequestKind::CreatePixmap(q) => q,
            _ => return Err(wrong_kind("CreatePixmap", &request.kind)),
        };
        if !drawable_exists {
            return Err(X11Error::Protocol(id_text("CreatePixmap: drawable ", q.drawable, " does not exist")));
        }
        if !owns_resource {
            return Err(
                X11Error::Protocol(
                    id_text("CreatePixmap: pixmap ID ", q.pid, " is not within client's resource range"),
                ),
            );
        }
        Ok(None)
    }
}

impl FreePixmapHandler {
    /// The outcome once the server has tried to remove the pixmap.
    pub fn handle_request(&self, request: &Request, removed: bool) -> (r: HandlerResult<
        Option<Vec<u8>>,
    >)
        ensures
            r is Ok <==> request.kind is FreePixmap && removed,
            r matches Ok(reply) ==> reply is None,
            r matches Err(e) ==> e matches X11Error::Protocol(m) && (request.kind is FreePixmap ==> m@ == id_message("FreePixmap: pixmap "@, request.kind->FreePixmap_0.pixmap, " does not exist"@)),
    {
        let q = match &request.kind {
            RequestKind::FreePixmap(q) => q,
            _ => return Err(wrong_kind("FreePixmap", &request.kind)),
        };
        if !removed {
            return Err(X11Error::Protocol(id_text("FreePixmap: pixmap ", q.pixmap, " does not exist")));
        }
        Ok(None)
    }
}

/// Handler for CreateGC requests (opcode 55)
pub struct CreateGCHandler;

impl CreateGCHandler {
    /// Set the new graphics context's components from the request's values.
    pub fn handle_request(&self, request: &Request, gc: &mut GraphicsContext) -> (r: HandlerResult<
        Option<Vec<u8>>,
    >)
        ensures
            r is Ok <==> (request.kind is CreateGC && gc_rank(
                request.kind->CreateGC_0.value_mask,
                gc_component_count(),
            ) <= request.kind->CreateGC_0.value_list@.len()),
            request.kind is CreateGC ==> *final(gc) == gc_after(
                *old(gc),
                request.kind->CreateGC_0.value_mask,
                request.kind->CreateGC_0.value_list@,
                gc_component_count(),
            ),
            !(request.kind is CreateGC) ==> *final(gc) == *old(gc),
            r matches Ok(reply) ==> reply is None,
            r matches Err(e) ==> e matches X11Error::Protocol(m) && (request.kind is CreateGC ==> m@
                == value_list_short_message()),
    {
        let q = match &request.kind {
            RequestKind::CreateGC(q) => q,
            _ => return Err(wrong_kind("CreateGC", &request.kind)),
        };
        apply_gc_values(gc, q.value_mask, q.value_list.as_slice())?;
        Ok(None)
    }
}

/// Handler for ChangeGC requests (opcode 56)
pub struct ChangeGCHandler;

impl ChangeGCHandler {
    /// Change the graphics context's components from the request's values,
    /// if the client owns it (`gc_owner` is `None` when it does not exist).
    pub fn handle_request(
        &self,
        request: &Request,
        gc: &mut GraphicsContext,
        gc_owner: Option<u32>,
        client_id: u32,
    ) -> (r: HandlerResult<Option<Vec<u8>>>)
        ensures
            r is Ok <==> (request.kind is ChangeGC && gc_owner == Some(client_id) && gc_rank(
                request.kind->ChangeGC_0.value_mask,
                gc_component_count(),
            ) <= request.kind->ChangeGC_0.value_list@.len()),
            request.kind is ChangeGC && gc_owner == Some(client_id) ==> *final(gc) == gc_after(
                *old(gc),
                request.kind->ChangeGC_0.value_mask,
                request.kind->ChangeGC_0.value_list@,
                gc_component_count(),
            ),
            !(request.kind is ChangeGC && gc_owner == Some(client_id)) ==> *final(gc) == *old(gc),
            r matches Ok(reply) ==> reply is None,
            r matches Err(e) ==> e matches X11Error::Protocol(m) && (request.kind is ChangeGC
                && gc_owner != Some(client_id) ==> m@ == gc_error(
                "ChangeGC: client "@,
                "ChangeGC: graphics context "@,
                request.kind->ChangeGC_0.gc,
                gc_owner,
                client_id,
            ) && (request.kind is ChangeGC && gc_owner == Some(client_id) ==> m@
                == value_list_short_message())),
    {
        let q = match &request.kind {
            RequestKind::ChangeGC(q) => q,
            _ => return Err(wrong_kind("ChangeGC", &request.kind)),
        };
        check_gc_owner("ChangeGC: client ", "ChangeGC: graphics context ", q.gc, gc_owner, client_id)?;
        apply_gc_values(gc, q.value_mask, q.value_list.as_slice())?;
        Ok(None)
    }
}

/// Handler for CreateWindow requests (opcode 1)
pub struct CreateWindowHandler;

/// The window class a CreateWindow request names, if it is one of the three.
pub open spec fn spec_window_class(class: u16) -> Option<WindowClass> {
    if class == 0 {
        Some(WindowClass::CopyFromParent)
    } else if class == 1 {
        Some(WindowClass::InputOutput)
    } else if class == 2 {
        Some(WindowClass::InputOnly)
    } else {
        None
    }
}

impl CreateWindowHandler {
    /// The class and background of the window to create; the background
    /// pixmap, if one is named, must then exist.
    pub fn handle_request(&self, request: &Request) -> (r: HandlerResult<(WindowClass, Background)>)
        ensures
            r is Ok <==> (request.kind is CreateWindow && spec_window_class(
                request.kind->CreateWindow_0.class,
            ) is Some),
            r matches Ok((class, background)) ==> {
                let q = request.kind->CreateWindow_0;
                &&& Some(class) == spec_window_class(q.class)
                &&& background == spec_decode_background(q.value_mask, q.value_list@)
            },
            r matches Err(e) ==> e matches X11Error::Protocol(m) && (request.kind is CreateWindow ==> m@ == id_message("Invalid window class: "@, request.kind->CreateWindow_0.class as u32, ""@)),
    {
        let q = match &request.kind {
            RequestKind::CreateWindow(q) => q,
            _ => return Err(wrong_kind("CreateWindow", &request.kind)),
        };
        let window_class = if q.class == 0 {
            WindowClass::CopyFromParent
        } else if q.class == 1 {
            WindowClass::InputOutput
        } else if q.class == 2 {
            WindowClass::InputOnly
        } else {
            return Err(X11Error::Protocol(id_text("Invalid window class: ", q.class as u32, "")));
        };
        let background = decode_background(q.value_mask, q.value_list.as_slice());
        Ok((window_class, background))
    }
}

/// Handler for ClearArea requests (opcode 61)
pub struct ClearAreaHandler;

/// The area an Expose event after ClearArea reports.
#[derive(Debug, Clone, Copy, PartialEq, Eq, Structural)]
pub struct ExposeArea {
    pub x: i16,
    pub y: i16,
    pub width: u16,
    pub height: u16,
}

impl ClearAreaHandler {
    /// Whether the area may be cleared (the window exists and is not
    /// InputOnly), and the Expose event to send when exposures are asked
    /// for: the request's rectangle, a width or height of 0 meaning the
    /// window's.
    pub fn handle_request(
        &self,
        request: &Request,
        window: Option<(WindowClass, u16, u16)>,
    ) -> (r: HandlerResult<Option<ExposeArea>>)
        ensures
            r is Ok <==> (request.kind is ClearArea && window is Some && (window->0).0
                != WindowClass::InputOnly),
            r matches Ok(expose) ==> {
                let q = request.kind->ClearArea_0;
                let w = window->0;
                &&& expose is Some <==> q.exposures != 0
                &&& expose matches Some(a) ==> a == (ExposeArea {
                    x: q.x,
                    y: q.y,
                    width: if q.width == 0 {
                        w.1
                    } else {
                        q.width
                    },
                    height: if q.height == 0 {
                        w.2
                    } else {
                        q.height
                    },
                })
            },
            r matches Err(e) ==> e matches X11Error::Protocol(m) && (request.kind is ClearArea ==> m@ == id_message("ClearArea: window "@, request.kind->ClearArea_0.window, if window is None { " does not exist"@ } else { " is InputOnly (Match error)"@ })),
    {
        let q = match &request.kind {
            RequestKind::ClearArea(q) => q,
            _ => return Err(wrong_kind("ClearArea", &request.kind)),
        };
        let (class, width, height) = match window {
            Some(w) => w,
            None => return Err(X11Error::Protocol(id_text("ClearArea: window ", q.window, " does not exist"))),
        };
        if class == WindowClass::InputOnly {
            return Err(X11Error::Protocol(id_text("ClearArea: window ", q.window, " is InputOnly (Match error)")));
        }
        if q.exposures != 0 {
            Ok(
                Some(
                    ExposeArea {
                        x: q.x,
                        y: q.y,
                        width: if q.width == 0 {
                            width
                        } else {
                            q.width
                        },
                        height: if q.height == 0 {
                            height
                        } else {
                            q.height
                        },
                    },
                ),
            )
        } else {
            Ok(None)
        }
    }
}

impl OpenFontHandler {
    /// OpenFont doesn't generate a response.
    pub fn handle_request(&self, request: &Request) -> (r: HandlerResult<Option<Vec<u8>>>)
        ensures
            r matches Ok(reply) && reply is None,
    {
        Ok(None)
    }
}

impl CreateGlyphCursorHandler {
    /// CreateGlyphCursor doesn't generate a response.
    pub fn handle_request(&self, request: &Request) -> (r: HandlerResult<Option<Vec<u8>>>)
        ensures
            r matches Ok(reply) && reply is None,
    {
        Ok(None)
    }
}

impl ChangePropertyHandler {
    /// Whether the property may be changed: the window exists. ChangeProperty
    /// does not generate a response.
    pub fn handle_request(&self, request: &Request, window_exists: bool) -> (r: HandlerResult<
        Option<Vec<u8>>,
    >)
        ensures
            r is Ok <==> request.kind is ChangeProperty && window_exists,
            r matches Ok(reply) ==> reply is None,
            r matches Err(e) ==> e matches X11Error::Protocol(m) && (request.kind is ChangeProperty ==> m@ == id_message("ChangeProperty: window "@, request.kind->ChangeProperty_0.window, " does not exist"@)),
    {
        let q = match &request.kind {
            RequestKind::ChangeProperty(q) => q,
            _ => return Err(wrong_kind("ChangeProperty", &request.kind)),
        };
        if !window_exists {
            return Err(X11Error::Protocol(id_text("ChangeProperty: window ", q.window, " does not exist")));
        }
        Ok(None)
    }
}

/// `s` without its trailing NUL characters.
pub open spec fn trim_nuls(s: Seq<char>) -> Seq<char>
    decreases s.len(),
{
    if s.len() > 0 && s.last() == '\0' {
        trim_nuls(s.drop_last())
    } else {
        s
    }
}

/// `str::trim_end_matches('\0')`: the string without its trailing NUL characters.
#[verifier::external_body]
fn trim_trailing_nuls(s: &str) -> (r: &str)
    ensures
        r@ == trim_nuls(s@),
{
    s.trim_end_matches('\0')
}

/// Handler for QueryExtension requests (opcode 98)
pub struct QueryExtensionHandler;

/// The QueryExtension reply (always least significant byte first): present
/// (set only for an extension with a request handler behind it), the major
/// opcode assigned to the name (0 when none is), no first event or error.
pub open spec fn query_extension_bytes(present: bool, major: Option<u8>, sequence: u16) -> Seq<u8> {
    let order = ByteOrder::LittleEndian;
    seq![1u8, 0u8] + u16_bytes(sequence, order) + u32_bytes(0, order) + seq![
        if present {
            1u8
        } else {
            0u8
        },
        match major {
            Some(m) => m,
            None => 0u8,
        },
        0u8,
        0u8,
    ] + zeros(20)
}

impl QueryExtensionHandler {
    /// The reply for the extension the request names (trailing NULs
    /// dropped), from this session's opcode table.
    pub fn handle_request(&self, request: &Request, extensions: &ExtensionRegistry) -> (r:
        HandlerResult<Option<Vec<u8>>>)
        ensures
            !(request.kind is QueryExtension) <==> r is Err,
            r matches Err(e) ==> e is Protocol,
            r matches Ok(reply) ==> reply matches Some(b) && b@ == query_extension_bytes(
                implemented_extension_names().contains(
                    trim_nuls(request.kind->QueryExtension_0.name@),
                ),
                spec_major_opcode(trim_nuls(request.kind->QueryExtension_0.name@)),
                request.sequence_number,
            ),
    {
        let q = match &request.kind {
            RequestKind::QueryExtension(q) => q,
            _ => return Err(wrong_kind("QueryExtension", &request.kind)),
        };
        let name_trimmed = trim_trailing_nuls(q.name.as_str());
        let major_opcode = extensions.major_opcode(name_trimmed);
        // Only an extension with a request handler behind it is reported
        // present; one that merely has an opcode reserved answers 0.
        let is_implemented = extensions.is_implemented(name_trimmed);
        let mut writer = EndianWriter::new(Vec::new(), ByteOrder::LittleEndian);
        writer.write_u8(1);  // Reply
        writer.write_u8(0);  // Unused
        writer.write_u16(request.sequence_number);  // Sequence number
        writer.write_u32(0);  // Reply length
        writer.write_u8(
            if is_implemented {
                1
            } else {
                0
            },
        );  // Present (1 = present)
        // Per spec, major/first-event/first-error are only meaningful when
        // present=1; 0 here is a defined "don't care" placeholder.
        writer.write_u8(
            match major_opcode {
                Some(m) => m,
                None => 0,
            },
        );  // Major opcode
        writer.write_u8(0);  // First event (unused)
        writer.write_u8(0);  // First error (unused)
        writer.write_padding(20);  // Padding to 32 bytes
        let bytes = writer.into_buffer();
        assert(bytes@ =~= query_extension_bytes(is_implemented, major_opcode, request.sequence_number));
        Ok(Some(bytes))
    }
}

/// Handler for BigRequests requests
pub struct BigRequestsHandler {
    major_opcode: u8,
}

impl BigRequestsHandler {
    /// The major opcode this handler serves.
    pub closed spec fn major(&self) -> u8 {
        self.major_opcode
    }

    pub fn new(major_opcode: u8) -> (r: Self)
        ensures
            r.major() == major_opcode,
    {
        Self { major_opcode }
    }

    /// The BIG-REQUESTS Enable reply (least significant byte first): the
    /// maximum request length, 0x4000000 units (256 MiB).
    pub fn handle_request(&self, request: &Request) -> (r: HandlerResult<Option<Vec<u8>>>)
        ensures
            !(request.kind is BigRequests) <==> r is Err,
            r matches Err(e) ==> e is Protocol,
            r matches Ok(reply) ==> reply matches Some(b) && b@ == short_reply(
                ByteOrder::LittleEndian,
                0,
                request.sequence_number,
                u32_bytes(0x4000000, ByteOrder::LittleEndian),
            ),
    {
        match &request.kind {
            RequestKind::BigRequests(_) => {},
            _ => return Err(wrong_kind("BigRequests", &request.kind)),
        }
        let mut writer = EndianWriter::new(Vec::new(), ByteOrder::LittleEndian);
        writer.write_u8(1);  // Reply
        writer.write_u8(0);  // Data (unused)
        writer.write_u16(request.sequence_number);  // Sequence number
        writer.write_u32(0);  // Reply length (0 additional 4-byte units)
        writer.write_u32(0x4000000);  // Maximum request length in 4-byte units
        writer.write_padding(20);  // Padding to 32 bytes total
        let bytes = writer.into_buffer();
        assert(bytes@ =~= short_reply(
            ByteOrder::LittleEndian,
            0,
            request.sequence_number,
            u32_bytes(0x4000000, ByteOrder::LittleEndian),
        ));
        Ok(Some(bytes))
    }
}

/// Handler for RenderQueryVersion requests (RENDER minor opcode 0)
pub struct RenderQueryVersionHandler {
    major_opcode: u8,
}

impl RenderQueryVersionHandler {
    /// The major opcode this handler serves.
    pub closed spec fn major(&self) -> u8 {
        self.major_opcode
    }

    pub fn new(major_opcode: u8) -> (r: Self)
        ensures
            r.major() == major_opcode,
    {
        Self { major_opcode }
    }

    /// The RENDER version this server supports: 0.1, the lowest version that
    /// QueryVersion with no other requests can honestly support.
    pub fn handle_request(&self, request: &Request) -> (r: HandlerResult<Option<Vec<u8>>>)
        ensures
            !(request.kind is RenderQueryVersion) <==> r is Err,
            r matches Err(e) ==> e is Protocol,
            r matches Ok(reply) ==> reply matches Some(b) && b@ == short_reply(
                ByteOrder::LittleEndian,
                0,
                request.sequence_number,
                u32_bytes(0, ByteOrder::LittleEndian) + u32_bytes(1, ByteOrder::LittleEndian),
            ),
    {
        match &request.kind {
            RequestKind::RenderQueryVersion(_) => {},
            _ => return Err(wrong_kind("RenderQueryVersion", &request.kind)),
        }
        let mut writer = EndianWriter::new(Vec::new(), ByteOrder::LittleEndian);
        writer.write_u8(1);  // Reply
        writer.write_u8(0);  // Unused
        writer.write_u16(request.sequence_number);  // Sequence number
        writer.write_u32(0);  // Reply length
        writer.write_u32(0);  // Server major version
        writer.write_u32(1);  // Server minor version
        writer.write_padding(16);  // Padding to 32 bytes
        let bytes = writer.into_buffer();
        assert(bytes@ =~= short_reply(
            ByteOrder::LittleEndian,
            0,
            request.sequence_number,
            u32_bytes(0, ByteOrder::LittleEndian) + u32_bytes(1, ByteOrder::LittleEndian),
        ));
        Ok(Some(bytes))
    }
}

/// Handler for RenderCreateSolidFill requests (RENDER minor opcode 33)
pub struct RenderCreateSolidFillHandler {
    major_opcode: u8,
}

impl RenderCreateSolidFillHandler {
    /// The major opcode this handler serves.
    pub closed spec fn major(&self) -> u8 {
        self.major_opcode
    }

    pub fn new(major_opcode: u8) -> (r: Self)
        ensures
            r.major() == major_opcode,
    {
        Self { major_opcode }
    }

    /// Whether the picture may be created: its id is in the client's
    /// resource range. RenderCreateSolidFill doesn't generate a response.
    pub fn handle_request(&self, request: &Request, owns_resource: bool) -> (r: HandlerResult<
        Option<Vec<u8>>,
    >)
        ensures
            r is Ok <==> request.kind is RenderCreateSolidFill && owns_resource,
            r matches Ok(reply) ==> reply is None,
            r matches Err(e) ==> e matches X11Error::Protocol(m) && (request.kind is RenderCreateSolidFill ==> m@ == id_message("RenderCreateSolidFill: picture id "@, request.kind->RenderCreateSolidFill_0.pid, " is not within client's resource range"@)),
    {
        let q = match &request.kind {
            RequestKind::RenderCreateSolidFill(q) => q,
            _ => return Err(wrong_kind("RenderCreateSolidFill", &request.kind)),
        };
        if !owns_resource {
            return Err(
                X11Error::Protocol(
                    id_text("RenderCreateSolidFill: picture id ", q.pid, " is not within client's resource range"),
                ),
            );
        }
        Ok(None)
    }
}

impl RequestHandler for GetGeometryHandler {
    open spec fn spec_opcode(&self) -> (u8, Option<u8>) {
        (14, None)
    }

    fn opcode(&self) -> (u8, Option<u8>) {
        (14, None)
    }

    open spec fn spec_name(&self) -> Seq<char> {
        "GetGeometry"@
    }

    fn name(&self) -> &'static str {
        "GetGeometry"
    }
}

impl RequestHandler for InternAtomHandler {
    open spec fn spec_opcode(&self) -> (u8, Option<u8>) {
        (16, None)
    }

    fn opcode(&self) -> (u8, Option<u8>) {
        (16, None)
    }

    open spec fn spec_name(&self) -> Seq<char> {
        "InternAtom"@
    }

    fn name(&self) -> &'static str {
        "InternAtom"
    }
}

impl RequestHandler for ChangePropertyHandler {
    open spec fn spec_opcode(&self) -> (u8, Option<u8>) {
        (18, None)
    }

    fn opcode(&self) -> (u8, Option<u8>) {
        (18, None)
    }

    open spec fn spec_name(&self) -> Seq<char> {
        "ChangeProperty"@
    }

    fn name(&self) -> &'static str {
        "ChangeProperty"
    }
}

impl RequestHandler for GetPropertyHandler {
    open spec fn spec_opcode(&self) -> (u8, Option<u8>) {
        (20, None)
    }

    fn opcode(&self) -> (u8, Option<u8>) {
        (20, None)
    }

    open spec fn spec_name(&self) -> Seq<char> {
        "GetProperty"@
    }

    fn name(&self) -> &'static str {
        "GetProperty"
    }
}

impl RequestHandler for QueryColorsHandler {
    open spec fn spec_opcode(&self) -> (u8, Option<u8>) {
        (91, None)
    }

    fn opcode(&self) -> (u8, Option<u8>) {
        (91, None)
    }

    open spec fn spec_name(&self) -> Seq<char> {
        "QueryColors"@
    }

    fn name(&self) -> &'static str {
        "QueryColors"
    }
}

impl RequestHandler for CreatePixmapHandler {
    open spec fn spec_opcode(&self) -> (u8, Option<u8>) {
        (53, None)
    }

    fn opcode(&self) -> (u8, Option<u8>) {
        (53, None)
    }

    open spec fn spec_name(&self) -> Seq<char> {
        "CreatePixmap"@
    }

    fn name(&self) -> &'static str {
        "CreatePixmap"
    }
}

impl RequestHandler for FreePixmapHandler {
    open spec fn spec_opcode(&self) -> (u8, Option<u8>) {
        (54, None)
    }

    fn opcode(&self) -> (u8, Option<u8>) {
        (54, None)
    }

    open spec fn spec_name(&self) -> Seq<char> {
        "FreePixmap"@
    }

    fn name(&self) -> &'static str {
        "FreePixmap"
    }
}

impl RequestHandler for GetInputFocusHandler {
    open spec fn spec_opcode(&self) -> (u8, Option<u8>) {
        (43, None)
    }

    fn opcode(&self) -> (u8, Option<u8>) {
        (43, None)
    }

    open spec fn spec_name(&self) -> Seq<char> {
        "GetInputFocus"@
    }

    fn name(&self) -> &'static str {
        "GetInputFocus"
    }
}

impl RequestHandler for PutImageHandler {
    open spec fn spec_opcode(&self) -> (u8, Option<u8>) {
        (72, None)
    }

    fn opcode(&self) -> (u8, Option<u8>) {
        (72, None)
    }

    open spec fn spec_name(&self) -> Seq<char> {
        "PutImage"@
    }

    fn name(&self) -> &'static str {
        "PutImage"
    }
}

impl RequestHandler for CopyAreaHandler {
    open spec fn spec_opcode(&self) -> (u8, Option<u8>) {
        (62, None)
    }

    fn opcode(&self) -> (u8, Option<u8>) {
        (62, None)
    }

    open spec fn spec_name(&self) -> Seq<char> {
        "CopyArea"@
    }

    fn name(&self) -> &'static str {
        "CopyArea"
    }
}

impl RequestHandler for OpenFontHandler {
    open spec fn spec_opcode(&self) -> (u8, Option<u8>) {
        (45, None)
    }

    fn opcode(&self) -> (u8, Option<u8>) {
        (45, None)
    }

    open spec fn spec_name(&self) -> Seq<char> {
        "OpenFont"@
    }

    fn name(&self) -> &'static str {
        "OpenFont"
    }
}

impl RequestHandler for CreateGlyphCursorHandler {
    open spec fn spec_opcode(&self) -> (u8, Option<u8>) {
        (94, None)
    }

    fn opcode(&self) -> (u8, Option<u8>) {
        (94, None)
    }

    open spec fn spec_name(&self) -> Seq<char> {
        "CreateGlyphCursor"@
    }

    fn name(&self) -> &'static str {
        "CreateGlyphCursor"
    }
}

impl RequestHandler for GrabPointerHandler {
    open spec fn spec_opcode(&self) -> (u8, Option<u8>) {
        (26, None)
    }

    fn opcode(&self) -> (u8, Option<u8>) {
        (26, None)
    }

    open spec fn spec_name(&self) -> Seq<char> {
        "GrabPointer"@
    }

    fn name(&self) -> &'static str {
        "GrabPointer"
    }
}

impl RequestHandler for QueryExtensionHandler {
    open spec fn spec_opcode(&self) -> (u8, Option<u8>) {
        (98, None)
    }

    fn opcode(&self) -> (u8, Option<u8>) {
        (98, None)
    }

    open spec fn spec_name(&self) -> Seq<char> {
        "QueryExtension"@
    }

    fn name(&self) -> &'static str {
        "QueryExtension"
    }
}

impl RequestHandler for CreateWindowHandler {
    open spec fn spec_opcode(&self) -> (u8, Option<u8>) {
        (1, None)
    }

    fn opcode(&self) -> (u8, Option<u8>) {
        (1, None)
    }

    open spec fn spec_name(&self) -> Seq<char> {
        "CreateWindow"@
    }

    fn name(&self) -> &'static str {
        "CreateWindow"
    }
}

impl RequestHandler for DestroyWindowHandler {
    open spec fn spec_opcode(&self) -> (u8, Option<u8>) {
        (4, None)
    }

    fn opcode(&self) -> (u8, Option<u8>) {
        (4, None)
    }

    open spec fn spec_name(&self) -> Seq<char> {
        "DestroyWindow"@
    }

    fn name(&self) -> &'static str {
        "DestroyWindow"
    }
}

impl RequestHandler for MapWindowHandler {
    open spec fn spec_opcode(&self) -> (u8, Option<u8>) {
        (8, None)
    }

    fn opcode(&self) -> (u8, Option<u8>) {
        (8, None)
    }

    open spec fn spec_name(&self) -> Seq<char> {
        "MapWindow"@
    }

    fn name(&self) -> &'static str {
        "MapWindow"
    }
}

impl RequestHandler for ClearAreaHandler {
    open spec fn spec_opcode(&self) -> (u8, Option<u8>) {
        (61, None)
    }

    fn opcode(&self) -> (u8, Option<u8>) {
        (61, None)
    }

    open spec fn spec_name(&self) -> Seq<char> {
        "ClearArea"@
    }

    fn name(&self) -> &'static str {
        "ClearArea"
    }
}

impl RequestHandler for UnmapWindowHandler {
    open spec fn spec_opcode(&self) -> (u8, Option<u8>) {
        (10, None)
    }

    fn opcode(&self) -> (u8, Option<u8>) {
        (10, None)
    }

    open spec fn spec_name(&self) -> Seq<char> {
        "UnmapWindow"@
    }

    fn name(&self) -> &'static str {
        "UnmapWindow"
    }
}

impl RequestHandler for CreateGCHandler {
    open spec fn spec_opcode(&self) -> (u8, Option<u8>) {
        (55, None)
    }

    fn opcode(&self) -> (u8, Option<u8>) {
        (55, None)
    }

    open spec fn spec_name(&self) -> Seq<char> {
        "CreateGC"@
    }

    fn name(&self) -> &'static str {
        "CreateGC"
    }
}

impl RequestHandler for ChangeGCHandler {
    open spec fn spec_opcode(&self) -> (u8, Option<u8>) {
        (56, None)
    }

    fn opcode(&self) -> (u8, Option<u8>) {
        (56, None)
    }

    open spec fn spec_name(&self) -> Seq<char> {
        "ChangeGC"@
    }

    fn name(&self) -> &'static str {
        "ChangeGC"
    }
}

impl RequestHandler for PolyArcHandler {
    open spec fn spec_opcode(&self) -> (u8, Option<u8>) {
        (68, None)
    }

    fn opcode(&self) -> (u8, Option<u8>) {
        (68, None)
    }

    open spec fn spec_name(&self) -> Seq<char> {
        "PolyArc"@
    }

    fn name(&self) -> &'static str {
        "PolyArc"
    }
}

impl RequestHandler for FillArcHandler {
    open spec fn spec_opcode(&self) -> (u8, Option<u8>) {
        (71, None)
    }

    fn opcode(&self) -> (u8, Option<u8>) {
        (71, None)
    }

    open spec fn spec_name(&self) -> Seq<char> {
        "FillArc"@
    }

    fn name(&self) -> &'static str {
        "FillArc"
    }
}

impl RequestHandler for PolyLineHandler {
    open spec fn spec_opcode(&self) -> (u8, Option<u8>) {
        (65, None)
    }

    fn opcode(&self) -> (u8, Option<u8>) {
        (65, None)
    }

    open spec fn spec_name(&self) -> Seq<char> {
        "PolyLine"@
    }

    fn name(&self) -> &'static str {
        "PolyLine"
    }
}

impl RequestHandler for PolyFillRectangleHandler {
    open spec fn spec_opcode(&self) -> (u8, Option<u8>) {
        (70, None)
    }

    fn opcode(&self) -> (u8, Option<u8>) {
        (70, None)
    }

    open spec fn spec_name(&self) -> Seq<char> {
        "PolyFillRectangle"@
    }

    fn name(&self) -> &'static str {
        "PolyFillRectangle"
    }
}

impl RequestHandler for BigRequestsHandler {
    open spec fn spec_opcode(&self) -> (u8, Option<u8>) {
        (self.major(), None)
    }

    fn opcode(&self) -> (u8, Option<u8>) {
        (self.major_opcode, None)
    }

    open spec fn spec_name(&self) -> Seq<char> {
        "BigRequests"@
    }

    fn name(&self) -> &'static str {
        "BigRequests"
    }
}

impl RequestHandler for RenderQueryVersionHandler {
    open spec fn spec_opcode(&self) -> (u8, Option<u8>) {
        (self.major(), Some(0u8))
    }

    fn opcode(&self) -> (u8, Option<u8>) {
        (self.major_opcode, Some(RenderOpcode::QueryVersion.to_u8()))
    }

    open spec fn spec_name(&self) -> Seq<char> {
        "RenderQueryVersion"@
    }

    fn name(&self) -> &'static str {
        "RenderQueryVersion"
    }
}

impl RequestHandler for RenderCreateSolidFillHandler {
    open spec fn spec_opcode(&self) -> (u8, Option<u8>) {
        (self.major(), Some(33u8))
    }

    fn opcode(&self) -> (u8, Option<u8>) {
        (self.major_opcode, Some(RenderOpcode::CreateSolidFill.to_u8()))
    }

    open spec fn spec_name(&self) -> Seq<char> {
        "RenderCreateSolidFill"@
    }

    fn name(&self) -> &'static str {
        "RenderCreateSolidFill"
    }
}

} // verus!

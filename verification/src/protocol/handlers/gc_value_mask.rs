//! GC value-mask bits, one per GC component, in value-list order.

use vstd::prelude::*;

verus! {

pub const FUNCTION: u32 = 0x00000001;
pub const PLANE_MASK: u32 = 0x00000002;
pub const FOREGROUND: u32 = 0x00000004;
pub const BACKGROUND: u32 = 0x00000008;
pub const LINE_WIDTH: u32 = 0x00000010;
pub const LINE_STYLE: u32 = 0x00000020;
pub const CAP_STYLE: u32 = 0x00000040;
pub const JOIN_STYLE: u32 = 0x00000080;
pub const FILL_STYLE: u32 = 0x00000100;
pub const FILL_RULE: u32 = 0x00000200;
pub const TILE: u32 = 0x00000400;
pub const STIPPLE: u32 = 0x00000800;
pub const TILE_STIPPLE_X_ORIGIN: u32 = 0x00001000;
pub const TILE_STIPPLE_Y_ORIGIN: u32 = 0x00002000;
pub const FONT: u32 = 0x00004000;
pub const SUBWINDOW_MODE: u32 = 0x00008000;
pub const GRAPHICS_EXPOSURES: u32 = 0x00010000;
pub const CLIP_X_ORIGIN: u32 = 0x00020000;
pub const CLIP_Y_ORIGIN: u32 = 0x00040000;
pub const CLIP_MASK: u32 = 0x00080000;
pub const DASH_OFFSET: u32 = 0x00100000;
pub const DASHES: u32 = 0x00200000;
pub const ARC_MODE: u32 = 0x00400000;

} // verus!

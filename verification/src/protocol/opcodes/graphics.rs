//! Graphics and drawing opcodes.

use vstd::prelude::*;

verus! {

pub const CREATE_GC: u8 = 55;
pub const CHANGE_GC: u8 = 56;
pub const COPY_GC: u8 = 57;
pub const SET_DASHES: u8 = 58;
pub const SET_CLIP_RECTANGLES: u8 = 59;
pub const FREE_GC: u8 = 60;
pub const CLEAR_AREA: u8 = 61;
pub const COPY_AREA: u8 = 62;
pub const COPY_PLANE: u8 = 63;
pub const POLY_POINT: u8 = 64;
pub const POLY_LINE: u8 = 65;
pub const POLY_SEGMENT: u8 = 66;
pub const POLY_RECTANGLE: u8 = 67;
pub const POLY_ARC: u8 = 68;
pub const FILL_POLY: u8 = 69;
pub const POLY_FILL_RECTANGLE: u8 = 70;
pub const POLY_FILL_ARC: u8 = 71;
pub const PUT_IMAGE: u8 = 72;
pub const GET_IMAGE: u8 = 73;

} // verus!

//! Text and font opcodes.

use vstd::prelude::*;

verus! {

pub const OPEN_FONT: u8 = 45;
pub const CLOSE_FONT: u8 = 46;
pub const QUERY_FONT: u8 = 47;
pub const QUERY_TEXT_EXTENTS: u8 = 48;
pub const LIST_FONTS: u8 = 49;
pub const LIST_FONTS_WITH_INFO: u8 = 50;
pub const SET_FONT_PATH: u8 = 51;
pub const GET_FONT_PATH: u8 = 52;
pub const POLY_TEXT8: u8 = 74;
pub const POLY_TEXT16: u8 = 75;
pub const IMAGE_TEXT8: u8 = 76;
pub const IMAGE_TEXT16: u8 = 77;

} // verus!

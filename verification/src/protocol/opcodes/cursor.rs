//! Cursor opcodes.

use vstd::prelude::*;

verus! {

pub const CREATE_CURSOR: u8 = 93;
pub const CREATE_GLYPH_CURSOR: u8 = 94;
pub const FREE_CURSOR: u8 = 95;
pub const RECOLOR_CURSOR: u8 = 96;

} // verus!

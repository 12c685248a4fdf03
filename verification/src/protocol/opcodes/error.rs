//! Error codes.

use vstd::prelude::*;

verus! {

pub const REQUEST: u8 = 1;
pub const VALUE: u8 = 2;
pub const WINDOW: u8 = 3;
pub const PIXMAP: u8 = 4;
pub const ATOM: u8 = 5;
pub const CURSOR: u8 = 6;
pub const FONT: u8 = 7;
pub const MATCH: u8 = 8;
pub const DRAWABLE: u8 = 9;
pub const ACCESS: u8 = 10;
pub const ALLOC: u8 = 11;
pub const COLORMAP: u8 = 12;
pub const GCONTEXT: u8 = 13;
pub const IDCHOICE: u8 = 14;
pub const NAME: u8 = 15;
pub const LENGTH: u8 = 16;
pub const IMPLEMENTATION: u8 = 17;

} // verus!

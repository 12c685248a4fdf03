//! Pixmap and drawable opcodes.

use vstd::prelude::*;

verus! {

pub const CREATE_PIXMAP: u8 = 53;
pub const FREE_PIXMAP: u8 = 54;

} // verus!

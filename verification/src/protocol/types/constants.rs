//! X11 protocol constants.

use vstd::prelude::*;

verus! {

// Window classes
pub const COPY_FROM_PARENT: u16 = 0;
pub const INPUT_OUTPUT: u16 = 1;
pub const INPUT_ONLY: u16 = 2;

// Visual ID constants
pub const COPY_FROM_PARENT_VISUAL: u32 = 0;

// Pixmap constants
pub const NONE: u32 = 0;
pub const PARENT_RELATIVE: u32 = 1;

// Cursor constants
pub const CURSOR_NONE: u32 = 0;

// Colormap constants
pub const COPY_FROM_PARENT_COLORMAP: u32 = 0;

} // verus!

//! Colormap opcodes.

use vstd::prelude::*;

verus! {

pub const CREATE_COLORMAP: u8 = 78;
pub const FREE_COLORMAP: u8 = 79;
pub const COPY_COLORMAP_AND_FREE: u8 = 80;
pub const INSTALL_COLORMAP: u8 = 81;
pub const UNINSTALL_COLORMAP: u8 = 82;
pub const LIST_INSTALLED_COLORMAPS: u8 = 83;
pub const ALLOC_COLOR: u8 = 84;
pub const ALLOC_NAMED_COLOR: u8 = 85;
pub const ALLOC_COLOR_CELLS: u8 = 86;
pub const ALLOC_COLOR_PLANES: u8 = 87;
pub const FREE_COLORS: u8 = 88;
pub const STORE_COLORS: u8 = 89;
pub const STORE_NAMED_COLOR: u8 = 90;
pub const QUERY_COLORS: u8 = 91;
pub const LOOKUP_COLOR: u8 = 92;

} // verus!

//! Window management opcodes.

use vstd::prelude::*;

verus! {

pub const CREATE_WINDOW: u8 = 1;
pub const CHANGE_WINDOW_ATTRIBUTES: u8 = 2;
pub const GET_WINDOW_ATTRIBUTES: u8 = 3;
pub const DESTROY_WINDOW: u8 = 4;
pub const DESTROY_SUBWINDOWS: u8 = 5;
pub const CHANGE_SAVE_SET: u8 = 6;
pub const REPARENT_WINDOW: u8 = 7;
pub const MAP_WINDOW: u8 = 8;
pub const MAP_SUBWINDOWS: u8 = 9;
pub const UNMAP_WINDOW: u8 = 10;
pub const UNMAP_SUBWINDOWS: u8 = 11;
pub const CONFIGURE_WINDOW: u8 = 12;
pub const CIRCULATE_WINDOW: u8 = 13;
pub const GET_GEOMETRY: u8 = 14;
pub const QUERY_TREE: u8 = 15;

} // verus!

//! Input and event opcodes.

use vstd::prelude::*;

verus! {

pub const GRAB_POINTER: u8 = 26;
pub const UNGRAB_POINTER: u8 = 27;
pub const GRAB_BUTTON: u8 = 28;
pub const UNGRAB_BUTTON: u8 = 29;
pub const CHANGE_ACTIVE_POINTER_GRAB: u8 = 30;
pub const GRAB_KEYBOARD: u8 = 31;
pub const UNGRAB_KEYBOARD: u8 = 32;
pub const GRAB_KEY: u8 = 33;
pub const UNGRAB_KEY: u8 = 34;
pub const ALLOW_EVENTS: u8 = 35;
pub const GRAB_SERVER: u8 = 36;
pub const UNGRAB_SERVER: u8 = 37;
pub const QUERY_POINTER: u8 = 38;
pub const GET_MOTION_EVENTS: u8 = 39;
pub const TRANSLATE_COORDINATES: u8 = 40;
pub const WARP_POINTER: u8 = 41;
pub const SET_INPUT_FOCUS: u8 = 42;
pub const GET_INPUT_FOCUS: u8 = 43;
pub const QUERY_KEYMAP: u8 = 44;

} // verus!

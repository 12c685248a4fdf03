//! Server and extension opcodes.

use vstd::prelude::*;

verus! {

pub const SEND_EVENT: u8 = 25;
pub const QUERY_EXTENSION: u8 = 98;
pub const LIST_EXTENSIONS: u8 = 99;
pub const CHANGE_KEYBOARD_MAPPING: u8 = 100;
pub const GET_KEYBOARD_MAPPING: u8 = 101;
pub const CHANGE_KEYBOARD_CONTROL: u8 = 102;
pub const GET_KEYBOARD_CONTROL: u8 = 103;
pub const BELL: u8 = 104;
pub const CHANGE_POINTER_CONTROL: u8 = 105;
pub const GET_POINTER_CONTROL: u8 = 106;
pub const SET_SCREEN_SAVER: u8 = 107;
pub const GET_SCREEN_SAVER: u8 = 108;
pub const CHANGE_HOSTS: u8 = 109;
pub const LIST_HOSTS: u8 = 110;
pub const SET_ACCESS_CONTROL: u8 = 111;
pub const SET_CLOSE_DOWN_MODE: u8 = 112;
pub const KILL_CLIENT: u8 = 113;
pub const ROTATE_PROPERTIES: u8 = 114;
pub const FORCE_SCREEN_SAVER: u8 = 115;
pub const SET_POINTER_MAPPING: u8 = 116;
pub const GET_POINTER_MAPPING: u8 = 117;
pub const SET_MODIFIER_MAPPING: u8 = 118;
pub const GET_MODIFIER_MAPPING: u8 = 119;
pub const NO_OPERATION: u8 = 127;

} // verus!

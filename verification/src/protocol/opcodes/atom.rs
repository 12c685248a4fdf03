//! Atom and property opcodes.

use vstd::prelude::*;

verus! {

pub const INTERN_ATOM: u8 = 16;
pub const GET_ATOM_NAME: u8 = 17;
pub const CHANGE_PROPERTY: u8 = 18;
pub const DELETE_PROPERTY: u8 = 19;
pub const GET_PROPERTY: u8 = 20;
pub const LIST_PROPERTIES: u8 = 21;
pub const SET_SELECTION_OWNER: u8 = 22;
pub const GET_SELECTION_OWNER: u8 = 23;
pub const CONVERT_SELECTION: u8 = 24;

} // verus!

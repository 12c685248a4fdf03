//! The status byte that opens a connection setup reply.

use vstd::prelude::*;

verus! {

pub const FAILED: u8 = 0;

pub const SUCCESS: u8 = 1;

pub const AUTHENTICATE: u8 = 2;

} // verus!

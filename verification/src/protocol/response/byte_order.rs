//! The byte-order marks a client sends first on a connection.

use vstd::prelude::*;

verus! {

/// Most significant byte first (`'B'`).
pub const MSB_FIRST: u8 = 0x42;

/// Least significant byte first (`'l'`).
pub const LSB_FIRST: u8 = 0x6C;

} // verus!

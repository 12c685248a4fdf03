//! XI2's device-id pseudo-constants (from X11/extensions/XI2.h) - not real
//! device ids, used only in requests/events that mean "all devices of this
//! kind" rather than one specific device.

use vstd::prelude::*;

verus! {

pub const ALL_DEVICES: u16 = 0;
pub const ALL_MASTER_DEVICES: u16 = 1;

} // verus!

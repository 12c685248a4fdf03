//! XI2's own event type constants (from X11/extensions/XI2.h), distinct
//! from the core X11 event codes - these are the `evtype` field inside a
//! GenericEvent's XI2 payload, not the wire event code itself (which is
//! always 35, GenericEvent, for every XI2 event).

use vstd::prelude::*;

verus! {

pub const RAW_MOTION: u16 = 17;

} // verus!

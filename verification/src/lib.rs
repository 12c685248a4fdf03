//! An X11 display server's protocol layer: wire encoding, request parsing,
//! reply/event/error serialization and connection setup.

pub mod protocol;

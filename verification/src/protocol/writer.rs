//! Endian-aware writer utilities for X11 protocol responses.
//!
//! The writer itself lives in `endianness`; this module names it where responses are built.

pub use super::endianness::EndianWriter;

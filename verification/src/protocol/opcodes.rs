//! X11 protocol opcodes, organized by functional category.
//! These constants define the wire protocol command numbers.

/// Window management opcodes
pub mod window;
/// Graphics and drawing opcodes
pub mod graphics;
/// Input and event opcodes
pub mod input;
/// Text and font opcodes
pub mod text;
/// Pixmap and drawable opcodes
pub mod pixmap;
/// Cursor opcodes
pub mod cursor;
/// Colormap opcodes
pub mod colormap;
/// Atom and property opcodes
pub mod atom;
/// Server and extension opcodes
pub mod server;
/// Event opcodes (for events sent to clients)
pub mod event;
/// Error codes
pub mod error;

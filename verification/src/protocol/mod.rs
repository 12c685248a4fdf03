//! X11 protocol implementation.

pub mod types;
pub mod constants;
pub mod error;
pub mod utf8;
pub mod endianness;
pub mod opcodes;
pub mod extension_registry;
pub mod request;
pub mod connection;
pub mod handshake;
pub mod events;
pub mod message;
pub mod buffers;
pub mod serialization;
pub mod wire;
pub mod handlers;
pub mod handler;
pub mod randr;
pub mod response;
pub mod serializer;
pub mod writer;
pub mod trace_decode;
pub mod builder;
pub mod requests;
pub mod validator;

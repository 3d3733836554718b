//! A line-oriented broadcast relay: a CR LF line framer over a byte stream,
//! a registry of connected peers with fan-out, and the per-connection
//! session state machine that ties them together; plus a newline-separated
//! UTF-8 text codec over the same buffers.

pub mod buf;
pub mod codec;
pub mod wire;
pub mod framer;
pub mod registry;
pub mod session;

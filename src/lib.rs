//! Frame codec and event decoder for a live-broadcast chat socket protocol.
//!
//! Every frame starts with a fixed 16-byte big-endian header; a compressed
//! notification frame carries a zlib stream of concatenated sub-frames, each
//! of which holds one JSON message.

pub mod error;
pub mod header;
pub mod json;
pub mod keepalive;
pub mod packet;
pub mod servers;
pub mod session;

pub use error::{Error, Result};

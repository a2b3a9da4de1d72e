//! Client-side core of a minimal binary request/response protocol: a frame
//! codec for the wire format, typed commands with payload serializers and
//! response parsers, and the decision logic of a single-exchange client.

pub mod buf;
pub mod client;
pub mod codec;
pub mod command;
pub mod config;

//! The dual-mode connection layer: varint codec, plain framing, and the
//! Noise-encrypted framing with its handshake.

pub mod base;
pub mod error;
pub mod noise;
pub mod plain;
pub mod varu;

//! Bridge core for a device-native binary RPC protocol: a variable-length
//! integer codec, plain and Noise-encrypted frame transports, a message-type
//! registry, and the per-device session state machine with its entity
//! registry.

pub mod api;
pub mod config;
pub mod connection;
pub mod device;
pub mod hub;
pub mod model;
pub mod registry;

pub use connection::varu::varu32_to_bytes;

//! The Photon wire protocol: packets, commands, fragments and events.

pub mod command;
pub mod error;
pub mod fragment_buffer;
pub mod layer;
pub mod parser;
pub mod span;
pub mod wire;

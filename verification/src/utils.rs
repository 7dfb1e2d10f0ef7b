//! Helpers: text, time, and what the program needs to know of the network.

pub mod clock;
pub mod network;
pub mod text;

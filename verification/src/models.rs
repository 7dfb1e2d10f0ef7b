//! The values that leave the decoder: events, and the game data they speak of.

pub mod market;
pub mod photon_event;
pub mod player;

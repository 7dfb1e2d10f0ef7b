//! Decoding of captured Photon traffic: packet and command parsing, fragment
//! reassembly and the extraction of game events, with the rules that the
//! surrounding program applies to its configuration and collaborators.

pub mod capture;
pub mod config;
pub mod hwid;
pub mod models;
pub mod photon;
pub mod ui;
pub mod utils;

//! Session and command-dispatch engine of an interactive catalog client.
//!
//! The library decides; the program around it reads the terminal, talks HTTP
//! and renders results.
pub mod model;
pub mod command_line;
pub mod communication;
pub mod client;
pub mod search;

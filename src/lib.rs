//! A client for GPIB-to-LAN adapters that speak the `++` command protocol.
//!
//! The library holds the protocol's logic and leaves the socket to its
//! caller: a session plans the writes that each request takes, frames the
//! bytes each read returns, and learns the outcome of every write, so that
//! the GPIB address it believes selected is always the one last written.

pub mod address;
pub mod errors;
pub mod gpib_controller;
pub mod handshake;
pub mod hp606n_x;
pub mod registry;
pub mod text;

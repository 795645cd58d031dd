//! A verified core for a remotely operated door-release controller.
//!
//! The library holds the logic of the controller: a line codec framing a
//! serial byte stream, the actuation sequencer that drives the modem through
//! the fixed door-open command sequence, the persisted authorization store,
//! and the command gate that decides which requester may do what. I/O (the
//! serial device, the config file, the command transport) lives outside.

pub mod codec;
pub mod config;
pub mod gate;
pub mod modem;
pub mod text;

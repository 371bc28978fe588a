//! A WebSocket-style echo service, modelled as a verified protocol core.
//!
//! The library holds everything that decides: the message taxonomy, the
//! per-connection handler state machine, and a pure session model that
//! predicts the full reply stream of a connection. The surrounding
//! program performs the network I/O and feeds events into the machine.

pub mod handler;
pub mod isolation;
pub mod message;
pub mod session;

//! Protocol engine for a text command/response drone link carried over UDP.
//!
//! The library holds what the link decides: the wording of each command,
//! how a reply datagram is read, which replies count as an acknowledgement,
//! how a battery reading is parsed, the round-trip state of the channel and
//! the scripted flight. Sockets, timers and printing belong to the caller.

pub mod channel;
pub mod command;
pub mod error;
pub mod mission;
pub mod reply;

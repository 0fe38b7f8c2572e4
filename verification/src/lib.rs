//! Relay node core for a secure remote-command protocol.
//!
//! The library holds the verified decision logic of the relay: the command
//! grammar, the action mailbox, the pending-command map that correlates a
//! not-yet-established outbound connection with the command it must carry,
//! and the event handler that turns connection lifecycle events into actions.
//! The surrounding process (socket I/O, the encrypted-session handshake and
//! the reactor runtime) performs the outside work and feeds its outcomes
//! back in as plain values.

use vstd::prelude::*;

pub mod action;
pub mod command;
pub mod processor;
pub mod server;
pub mod text;

verus! {

/// A resource identity: the stable handle the reactor runtime assigns to a
/// registered listener or transport.
pub type ResourceId = u64;

/// A raw descriptor: the OS-level handle by which a connection is known
/// before the reactor runtime has assigned it a resource identity.
pub type Descriptor = u64;

} // verus!

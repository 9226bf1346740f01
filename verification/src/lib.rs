//! Core logic of a local-to-remote TCP tunnel carried over an authenticated
//! secure transport session.
//!
//! The crate verifies the tunnel engine itself: the session login state
//! machine, the per-session stream-id allocation that keeps every
//! sub-channel's identity unique, and the byte-pump state machine that moves
//! data between a local socket and its channel without losing, duplicating or
//! reordering bytes. The surrounding process (socket I/O, the transport
//! library, argument handling) drives these state machines from outside.

pub mod addr;
pub mod auth;
pub mod broker;
pub mod pump;

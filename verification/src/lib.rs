//! Hosting logic for a guest-language event handler.
//!
//! A session resolves a handler source to a local module, initializes one
//! handler object inside an embedded interpreter, then pulls incoming events
//! from an upstream channel, dispatches each to the handler, and interprets
//! the returned status code to decide whether to continue. Guest-side faults
//! (errors and aborts) are contained and converted into a single terminal
//! event on the outgoing channel.
//!
//! This crate holds the verified decision logic of that session: how a source
//! string is classified and resolved, how handler status codes are mapped to
//! loop transitions, which terminal event a session ends with, and how output
//! events are constructed. The surrounding interpreter and channel plumbing
//! live outside the library and hand plain values in and out.

pub mod bridge;
pub mod containment;
pub mod diagnostics;
pub mod events;
pub mod host;
pub mod session;
pub mod source;
pub mod status;

use vstd::prelude::*;

verus! {

} // verus!

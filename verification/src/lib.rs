//! Core of a multi-subscriber chat relay: validated message ingestion, a
//! bounded history buffer, and a hub that fans accepted messages out to every
//! registered subscriber over bounded channels.
//!
//! - [`msg`] — messages and their creation-time validation;
//! - [`history`] — the bounded, oldest-first history buffer;
//! - [`hub`] — the event loop owning the subscriber set: fan-out,
//!   registration, removal;
//! - [`subscription`] — a joining consumer's replay and registration;
//! - [`laws`] — the fan-out and registration laws, proved;
//! - [`channel`] — the outbound channel operations taken on trust;
//! - [`worker`], [`ui`] — the consumer side: session reconnection and the
//!   interface state, as event-driven state machines.
use vstd::prelude::*;

pub mod channel;
pub mod history;
pub mod hub;
pub mod laws;
pub mod msg;
pub mod subscription;
pub mod ui;
pub mod worker;

verus! {

/// Upper bound, in characters, on a sender's alias.
pub const MAX_ALIAS_LEN: usize = 32;

/// Upper bound, in characters, on a message's text.
pub const MAX_TEXT_LEN: usize = 256;

/// How many recent messages the history buffer retains.
pub const HISTORY_CAPACITY: usize = 100;

} // verus!

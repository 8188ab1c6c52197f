//! Safe, concurrent access to a lookup engine that must never run two lookups
//! at once.
//!
//! The engine is owned by a single actor that drains a bounded first-in,
//! first-out mailbox of requests. This crate holds the verified core of that
//! arrangement: the mailbox and its backpressure policy, the submission
//! protocol of a client, the timing figures reported with each reply, and the
//! staged builder that configures an actor.

pub mod actor;
pub mod builder;
pub mod client;
pub mod error;
pub mod mailbox;
pub mod timing;

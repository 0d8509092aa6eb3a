//! Verified core of a small real-time task synchronization service.
//!
//! Authenticated clients mutate a shared list of tasks; every accepted
//! mutation is fanned out as a change event to all live streaming
//! subscribers. This crate holds the logic of that core: token-based
//! identity verification, the bounded drop-oldest event bus, the mutation
//! pipeline that publishes exactly one event per successful store write,
//! and the per-connection session state machine. Durable storage and the
//! transport itself are external collaborators; an embedding program calls
//! into this crate with plain values and performs the I/O around it.

pub mod account;
pub mod auth;
pub mod bus;
pub mod listing;
pub mod model;
pub mod numeric;
pub mod pipeline;
pub mod session;

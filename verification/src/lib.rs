//! Core of an authenticated, role-gated backend service.
//!
//! The crate verifies the pieces that are hard to get right under
//! concurrency: a monotonic identifier sequencer, an in-memory
//! authorization policy engine together with its reload workflow, and
//! the optimistic-concurrency-control update protocol for versioned
//! entities, modelled against an in-memory document store.

pub mod actors;
pub mod clock;
pub mod config;
pub mod database;
pub mod domain;
pub mod handles;
pub mod jwt;
pub mod strings;

//! A verified core for a small key-value server — a command parser, an
//! in-memory store, and the per-connection handler state machine — together
//! with a collection of small verified functions on closures, lifetimes
//! and vectors.

pub mod protocol;
pub mod store;
pub mod handler;
pub mod laws;
pub mod basics;
pub mod closures;
pub mod callbacks;
pub mod lifetimes;
pub mod structures;
pub mod defaults;
pub mod any;

//! A bounded maker cycle against an exchange: read order-book depth, derive a
//! reference price, size a far limit sell, place it, cancel it on the next
//! tick, and stop after a configured number of placements, purging any
//! leftover orders around the whole run.
//!
//! The crate holds the decision logic only. Network transport, credentials
//! and the exchange client are collaborators outside of it: they hand plain
//! values in and carry plain values out.

pub mod config;
pub mod controller;
pub mod depth;
pub mod errors;
pub mod fixed;
pub mod scheduler;
pub mod sizing;

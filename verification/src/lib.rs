//! Safe, verified core of a Windows system-information layer.
//!
//! The library holds the decision and decoding logic behind three native
//! queries: bulk per-processor power information, CPU frequency reporting,
//! and per-session metadata (including the client's network address). The
//! native calls themselves are made by an unverified shell; this crate
//! validates their inputs beforehand and interprets their raw results
//! afterwards, with contracts on every step.

pub mod error;
pub mod power;
pub mod freq;
pub mod session;

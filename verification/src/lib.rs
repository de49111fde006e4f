//! A ledger-resident token-sale state machine: sells a native asset for
//! bridge-wrapped payment tokens under a tiered, appreciating price curve,
//! subject to a rolling daily sales cap.
//!
//! The crate holds the verified core: the pricing/tier engine, the purchase
//! state machine, the admin command handlers, the read-only query
//! projections, and the binary wire codec of the bridge-validation gateway.
//! Host plumbing (storage, cross-module transports) lives outside and hands
//! this library plain values.

pub mod admin;
pub mod error;
pub mod gateway;
pub mod pricing;
pub mod purchase;
pub mod query;
pub mod state;

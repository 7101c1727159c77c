//! A peer-to-peer bundle-swap engine.
//!
//! Two parties exchange bundles of non-fungible tokens, optionally together
//! with fungible balances, without the engine taking custody. The core is the
//! offer lifecycle: creation, acceptance, rejection, voluntary removal and
//! maintainer-driven removal of stale offers, together with the validation
//! pipeline that checks ownership, authorization, bundle size, expiry and
//! royalties before any transfer instruction is emitted.
//!
//! The engine itself holds no connection to the asset registries: every
//! lifecycle transition receives a point-in-time snapshot of the registry
//! facts it needs (owners, approvals, royalty policies) and decides from
//! those, so each transition is re-verified against live state by its caller.

pub mod contract;
pub mod error;
pub mod execute;
pub mod helpers;
pub mod laws;
pub mod msg;
pub mod payment;
pub mod query;
pub mod registry;
pub mod royalty;
pub mod state;
pub mod sudo;
pub mod time;

pub use error::ContractError;
pub use helpers::{ExpiryRange, ExpiryRangeError};

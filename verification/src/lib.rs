//! Accounting and safety core of a collateralized lending protocol: the
//! AMM routing / liquidation-swap subsystem.
//!
//! The crate models the contract state explicitly: global swap settings,
//! the registry of external swap venues, the append-only swap history,
//! and the per-protocol nonce ledger that protects callbacks against
//! replay. Every operation is a verified state transition with an exact
//! contract; the host environment (storage, clock, authentication) hands
//! in plain values and takes plain values back.

pub mod contract;
pub mod history;
pub mod math;
pub mod nonce;
pub mod registry;
pub mod router;
pub mod settings;
pub mod types;

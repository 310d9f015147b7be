//! One-shot construction of the call that asks a relay chain to unlock a
//! parachain slot and refund the surplus funds.
//!
//! The crate holds the deterministic core of the tool: interpreting the
//! registration record and the account record read from chain state, deciding
//! whether any work is owed, assembling the cross-chain instruction sequence,
//! and serializing the final call to its wire format. Network reads and file
//! loading live outside the library and hand it plain values.

pub mod account;
pub mod chain;
pub mod config;
pub mod error;
pub mod payload;
pub mod scale;
pub mod xcm;

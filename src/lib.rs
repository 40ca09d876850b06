//! A token registry with an append-only burn ledger.
//!
//! The registry is a dense sequence of token records, reachable by slot and,
//! through a linear scan, by address. The ledger is an append-only log of burn
//! events whose length is the global burn count. Both live in one
//! [`storage::FactoryStore`], whose operations are verified against a model of
//! the store.

pub mod types;
pub mod storage;
pub mod laws;

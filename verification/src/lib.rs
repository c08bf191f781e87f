//! A shielded-value ledger: opaque value commitments become notes, a note is
//! consumed at most once, and the spend that mints new notes goes through only
//! behind a zero-knowledge proof that a pluggable verifier accepts.
//!
//! The engine in [`processor`] decides each transition on plain values and
//! stages its writes; the host that owns the records creates and persists
//! them.

pub mod account;
pub mod address;
pub mod bytes;
pub mod error;
pub mod instruction;
pub mod invariants;
pub mod processor;
pub mod state;
pub mod utils;
pub mod zk;

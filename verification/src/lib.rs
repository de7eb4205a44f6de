//! In-memory state store for a trading-bot backend: per-user accounts,
//! a trade ledger, and an allocator of unique trade identifiers.
//!
//! Caller identities and the current time are explicit parameters
//! throughout; the hosting boundary resolves both and passes them in.
//! Monetary and ratio quantities are fixed-point integers in millionths
//! of a unit, so profit accumulation is exact integer arithmetic.

pub mod accounts;
pub mod ids;
pub mod ledger;
pub mod service;

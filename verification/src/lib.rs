//! Verified builders and validators for a Solana JSON gateway.
//!
//! The crate turns plain request values (base58 public key strings, amounts,
//! messages) into instruction descriptions and signing results, with the
//! validation rules and the exact shape of every answer stated as contracts.
//! All I/O, HTTP routing and JSON plumbing stays outside; the encoders,
//! signers and instruction builders of the Solana crates are reached through
//! a small set of trusted wrappers.

pub mod codec;
pub mod instruction;
pub mod key;
pub mod routes;
pub mod state;

//! Account and ledger core for a multi-game wagering backend.
//!
//! The crate keeps player accounts (name, credential, currency balance),
//! enforces uniqueness of account names, and serves the three ledger
//! operations — register, authenticate, adjust balance — through a request
//! adapter that decodes JSON payloads and maps every service outcome to a
//! distinct response.

pub mod adapter;
pub mod json;
pub mod laws;
pub mod service;
pub mod store;

//! Storage-side logic: token hashing and generation, record preparation, and the
//! queries and row filters that enforce per-number authorization.

pub mod access;
pub mod clock;
pub mod crypto;
pub mod models;
pub mod query;
pub mod records;
pub mod statements;
pub mod tokens;

pub use crypto::{encode, generate_token, hash_token};

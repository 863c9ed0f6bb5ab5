//! A credential-issuance and session-authority library.
//!
//! The library validates user credentials, issues and revokes signed,
//! time-bounded session tokens, and mediates a two-factor challenge-response
//! step.  Persistence is pluggable: each store capability is a trait with a
//! contract, and in-memory backends are provided for development and tests.

pub mod email;
pub mod errors;
pub mod flows;
pub mod hashing;
pub mod hashmap_two_fa_code_store;
pub mod hashmap_user_store;
pub mod hashset_banned_token_store;
pub mod hex;
pub mod laws;
pub mod model;
pub mod password;
pub mod stores;
pub mod token;
pub mod two_fa;
pub mod user;

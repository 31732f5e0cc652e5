//! A minimal credential-issuance and verification library.
//!
//! Registration input is validated, the plaintext password is turned into
//! an encoded Argon2 hash, and the resulting record is kept in a store
//! whose e-mail uniqueness is an invariant. Login attempts are checked
//! against the stored hash without ever reconstructing the plaintext.

pub mod credential;
pub mod models;
pub mod service;
pub mod store;
pub mod validate;

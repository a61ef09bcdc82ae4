//! Signing core of a validator key-management service: an Ed25519 software
//! signer whose secret is shared, never copied, between its clones.

mod bytes;
pub mod dalek;
pub mod error;
pub mod keys;
pub mod provider;
pub mod signer;

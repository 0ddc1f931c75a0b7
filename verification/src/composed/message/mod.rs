//! Encrypted messages and their session keys.

pub mod decrypt;
pub mod types;

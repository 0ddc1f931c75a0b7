//! Packets and their parsers.

pub mod ids;
pub mod sym_key_encrypted_session_key;
pub mod tags;
pub mod types;

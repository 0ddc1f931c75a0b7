//! Session-key recovery, ECDH key transport and signature-packet parsing
//! for OpenPGP messages.

pub mod composed;
pub mod crypto;
pub mod errors;
pub mod packet;
pub mod types;
pub mod util;

//! Algorithms and the primitives they rest on.

pub mod aes_kw;
pub mod checksum;
pub mod ecc_curve;
pub mod ecdh;
pub mod hash;
pub mod rsa_pkcs1;
pub mod sym;

//! The packet that holds a session key under a passphrase.

use vstd::prelude::*;
use crate::crypto::sym::SymmetricKeyAlgorithm;
use crate::types::s2k::StringToKey;

verus! {

/// A session key encrypted under a key that a passphrase gives. Where no
/// encrypted key is present, the key from the passphrase is the session
/// key itself.
#[derive(Debug, Clone)]
pub struct SymKeyEncryptedSessionKey {
    pub sym_algorithm: SymmetricKeyAlgorithm,
    pub s2k: StringToKey,
    pub encrypted_key: Option<Vec<u8>>,
}

impl SymKeyEncryptedSessionKey {
    /// Puts a packet together.
    pub fn new(
        sym_algorithm: SymmetricKeyAlgorithm,
        s2k: StringToKey,
        encrypted_key: Option<Vec<u8>>,
    ) -> (packet: SymKeyEncryptedSessionKey)
        ensures
            packet.sym_algorithm == sym_algorithm,
            packet.s2k == s2k,
            packet.encrypted_key == encrypted_key,
    {
        SymKeyEncryptedSessionKey { sym_algorithm, s2k, encrypted_key }
    }

    /// The cipher of the key that the passphrase gives.
    pub fn sym_algorithm(&self) -> (alg: SymmetricKeyAlgorithm)
        ensures
            alg == self.sym_algorithm,
    {
        self.sym_algorithm
    }

    /// How the passphrase becomes a key.
    pub fn s2k(&self) -> (s2k: &StringToKey)
        ensures
            *s2k == self.s2k,
    {
        &self.s2k
    }

    /// The encrypted session key, if the packet holds one.
    pub fn encrypted_key(&self) -> (key: &Option<Vec<u8>>)
        ensures
            *key == self.encrypted_key,
    {
        &self.encrypted_key
    }
}

} // verus!

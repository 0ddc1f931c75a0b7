//! RSA decryption of a session key.

use vstd::prelude::*;
use crate::errors::{Error, bytes_result};
use crate::types::mpi::Mpi;

verus! {

/// An RSA key pair of the `rsa` crate, carried through as it is.
#[verifier::external_type_specification]
#[verifier::external_body]
pub struct ExRsaPrivateKey(rsa::RsaPrivateKey);

/// What RSA decryption with the padding of PKCS#1 v1.5 gives for
/// `ciphertext` under `key`, or `None` where the cipher refuses it. The
/// key has no view: it stands here as it is.
pub uninterp spec fn pkcs1v15_decrypt_of(key: rsa::RsaPrivateKey, ciphertext: Seq<u8>) -> Option<
    Seq<u8>,
>;

/// Calls `rsa::RsaPrivateKey::decrypt` with the padding of PKCS#1 v1.5,
/// without blinding. Trusted: the outcome depends on the key and the
/// ciphertext alone, and a failure is reported as `CryptoFailure`.
#[verifier::external_body]
fn pkcs1v15_decrypt(key: &rsa::RsaPrivateKey, ciphertext: &[u8]) -> (out: Result<Vec<u8>, Error>)
    ensures
        out matches Ok(v) ==> pkcs1v15_decrypt_of(*key, ciphertext@) == Some(v@),
        out matches Err(e) ==> pkcs1v15_decrypt_of(*key, ciphertext@) is None && e
            == Error::CryptoFailure,
{
    key.decrypt(rsa::Pkcs1v15Encrypt, ciphertext).map_err(|_| Error::CryptoFailure)
}

/// What decryption gives for the integers of an encrypted session-key
/// packet, of which there must be exactly one.
pub open spec fn decrypt_spec(key: rsa::RsaPrivateKey, mpis: Seq<Mpi>) -> Result<Seq<u8>, Error> {
    if mpis.len() != 1 {
        Err(Error::InvalidInput)
    } else {
        match pkcs1v15_decrypt_of(key, mpis[0]@) {
            Some(plain) => Ok(plain),
            None => Err(Error::CryptoFailure),
        }
    }
}

/// Decrypts the one integer of an encrypted session-key packet. Fails with
/// `InvalidInput` unless there is exactly one integer, and with
/// `CryptoFailure` where the cipher refuses it. The fingerprint is not
/// used.
pub fn decrypt(priv_key: &rsa::RsaPrivateKey, mpis: &[Mpi], fingerprint: &[u8]) -> (out: Result<
    Vec<u8>,
    Error,
>)
    ensures
        bytes_result(out) == decrypt_spec(*priv_key, mpis@),
{
    if mpis.len() != 1 {
        return Err(Error::InvalidInput);
    }
    pkcs1v15_decrypt(priv_key, mpis[0].as_bytes())
}

} // verus!

//! AES key wrap, with the cipher chosen by the length of the key.

use vstd::prelude::*;
use crate::errors::{Error, bytes_result};

verus! {

/// What AES key wrap gives for `data` under the key-encrypting key `key`;
/// the length of the key selects AES-128, AES-192 or AES-256.
pub uninterp spec fn kw_wrap_of(key: Seq<u8>, data: Seq<u8>) -> Seq<u8>;

/// What AES key unwrap gives for `data` under the key-encrypting key `key`,
/// or `None` where it refuses the input or the integrity check fails.
pub uninterp spec fn kw_unwrap_of(key: Seq<u8>, data: Seq<u8>) -> Option<Seq<u8>>;

/// Calls `aes_kw::Kek::wrap_vec` with AES-128. Trusted: it succeeds exactly
/// when the length of `data` is a multiple of 8, and the result is 8 octets
/// longer than `data`.
#[verifier::external_body]
fn wrap_aes128(key: &[u8], data: &[u8]) -> (out: Result<Vec<u8>, Error>)
    requires
        key@.len() == 16,
        data@.len() + 8 <= usize::MAX,
    ensures
        out is Ok <==> data@.len() % 8 == 0,
        out matches Ok(v) ==> v@ == kw_wrap_of(key@, data@) && v@.len() == data@.len() + 8,
        out matches Err(e) ==> e == Error::KeyWrapFailed,
{
    let kek = aes_kw::KekAes128::try_from(key).map_err(|_| Error::KeyWrapFailed)?;
    kek.wrap_vec(data).map_err(|_| Error::KeyWrapFailed)
}

/// Calls `aes_kw::Kek::wrap_vec` with AES-192. Trusted: as for AES-128.
#[verifier::external_body]
fn wrap_aes192(key: &[u8], data: &[u8]) -> (out: Result<Vec<u8>, Error>)
    requires
        key@.len() == 24,
        data@.len() + 8 <= usize::MAX,
    ensures
        out is Ok <==> data@.len() % 8 == 0,
        out matches Ok(v) ==> v@ == kw_wrap_of(key@, data@) && v@.len() == data@.len() + 8,
        out matches Err(e) ==> e == Error::KeyWrapFailed,
{
    let kek = aes_kw::KekAes192::try_from(key).map_err(|_| Error::KeyWrapFailed)?;
    kek.wrap_vec(data).map_err(|_| Error::KeyWrapFailed)
}

/// Calls `aes_kw::Kek::wrap_vec` with AES-256. Trusted: as for AES-128.
#[verifier::external_body]
fn wrap_aes256(key: &[u8], data: &[u8]) -> (out: Result<Vec<u8>, Error>)
    requires
        key@.len() == 32,
        data@.len() + 8 <= usize::MAX,
    ensures
        out is Ok <==> data@.len() % 8 == 0,
        out matches Ok(v) ==> v@ == kw_wrap_of(key@, data@) && v@.len() == data@.len() + 8,
        out matches Err(e) ==> e == Error::KeyWrapFailed,
{
    let kek = aes_kw::KekAes256::try_from(key).map_err(|_| Error::KeyWrapFailed)?;
    kek.wrap_vec(data).map_err(|_| Error::KeyWrapFailed)
}

/// Calls `aes_kw::Kek::unwrap_vec` with AES-128. Trusted: a result is 8
/// octets shorter than `data`, whose length is then a multiple of 8.
#[verifier::external_body]
fn unwrap_aes128(key: &[u8], data: &[u8]) -> (out: Result<Vec<u8>, Error>)
    requires
        key@.len() == 16,
    ensures
        out matches Ok(v) ==> kw_unwrap_of(key@, data@) == Some(v@) && v@.len() + 8
            == data@.len() && data@.len() % 8 == 0,
        out matches Err(e) ==> kw_unwrap_of(key@, data@) is None && e == Error::KeyWrapFailed,
{
    let kek = aes_kw::KekAes128::try_from(key).map_err(|_| Error::KeyWrapFailed)?;
    kek.unwrap_vec(data).map_err(|_| Error::KeyWrapFailed)
}

/// Calls `aes_kw::Kek::unwrap_vec` with AES-192. Trusted: as for AES-128.
#[verifier::external_body]
fn unwrap_aes192(key: &[u8], data: &[u8]) -> (out: Result<Vec<u8>, Error>)
    requires
        key@.len() == 24,
    ensures
        out matches Ok(v) ==> kw_unwrap_of(key@, data@) == Some(v@) && v@.len() + 8
            == data@.len() && data@.len() % 8 == 0,
        out matches Err(e) ==> kw_unwrap_of(key@, data@) is None && e == Error::KeyWrapFailed,
{
    let kek = aes_kw::KekAes192::try_from(key).map_err(|_| Error::KeyWrapFailed)?;
    kek.unwrap_vec(data).map_err(|_| Error::KeyWrapFailed)
}

/// Calls `aes_kw::Kek::unwrap_vec` with AES-256. Trusted: as for AES-128.
#[verifier::external_body]
fn unwrap_aes256(key: &[u8], data: &[u8]) -> (out: Result<Vec<u8>, Error>)
    requires
        key@.len() == 32,
    ensures
        out matches Ok(v) ==> kw_unwrap_of(key@, data@) == Some(v@) && v@.len() + 8
            == data@.len() && data@.len() % 8 == 0,
        out matches Err(e) ==> kw_unwrap_of(key@, data@) is None && e == Error::KeyWrapFailed,
{
    let kek = aes_kw::KekAes256::try_from(key).map_err(|_| Error::KeyWrapFailed)?;
    kek.unwrap_vec(data).map_err(|_| Error::KeyWrapFailed)
}

/// Whether a key of `n` octets selects an AES cipher.
pub open spec fn is_aes_key_len(n: nat) -> bool {
    n == 16 || n == 24 || n == 32
}

/// The outcome of wrapping `data` under `key`.
pub open spec fn wrap_spec(key: Seq<u8>, data: Seq<u8>) -> Result<Seq<u8>, Error> {
    if data.len() % 8 != 0 {
        Err(Error::InvalidInput)
    } else if !is_aes_key_len(key.len()) {
        Err(Error::InvalidKeyLength)
    } else {
        Ok(kw_wrap_of(key, data))
    }
}

/// The outcome of unwrapping `data` under `key`.
pub open spec fn unwrap_spec(key: Seq<u8>, data: Seq<u8>) -> Result<Seq<u8>, Error> {
    if data.len() % 8 != 0 {
        Err(Error::InvalidInput)
    } else if !is_aes_key_len(key.len()) {
        Err(Error::InvalidKeyLength)
    } else {
        match kw_unwrap_of(key, data) {
            Some(plain) => Ok(plain),
            None => Err(Error::KeyWrapFailed),
        }
    }
}

/// Wraps `data`, whose length must be a multiple of 8, under a key of 16,
/// 24 or 32 octets. The result is 8 octets longer than `data`.
pub fn wrap(key: &[u8], data: &[u8]) -> (out: Result<Vec<u8>, Error>)
    requires
        data@.len() + 8 <= usize::MAX,
    ensures
        bytes_result(out) == wrap_spec(key@, data@),
        out matches Ok(v) ==> v@.len() == data@.len() + 8,
{
    if data.len() % 8 != 0 {
        return Err(Error::InvalidInput);
    }
    let n = key.len();
    if n == 16 {
        wrap_aes128(key, data)
    } else if n == 24 {
        wrap_aes192(key, data)
    } else if n == 32 {
        wrap_aes256(key, data)
    } else {
        Err(Error::InvalidKeyLength)
    }
}

/// Unwraps `data`, whose length must be a multiple of 8, under a key of
/// 16, 24 or 32 octets. A result is 8 octets shorter than `data`.
pub fn unwrap(key: &[u8], data: &[u8]) -> (out: Result<Vec<u8>, Error>)
    ensures
        bytes_result(out) == unwrap_spec(key@, data@),
        out matches Ok(v) ==> v@.len() + 8 == data@.len(),
{
    if data.len() % 8 != 0 {
        return Err(Error::InvalidInput);
    }
    let n = key.len();
    if n == 16 {
        unwrap_aes128(key, data)
    } else if n == 24 {
        unwrap_aes192(key, data)
    } else if n == 32 {
        unwrap_aes256(key, data)
    } else {
        Err(Error::InvalidKeyLength)
    }
}

} // verus!

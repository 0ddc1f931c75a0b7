//! The error kinds that the library distinguishes.

use vstd::prelude::*;

verus! {

/// Why an operation failed.
#[derive(Debug, Clone, Copy, PartialEq, Eq, Structural)]
pub enum Error {
    /// The input does not have the required shape: a wrong count of
    /// integers, a wrong length, a missing prefix, a truncated field.
    InvalidInput,
    /// The key has a length that no supported cipher takes.
    InvalidKeyLength,
    /// The padding of an unwrapped key is not well formed.
    UnpadError,
    /// AES key wrap or unwrap was refused, or the integrity check failed.
    KeyWrapFailed,
    /// The checksum behind a session key does not match its bytes.
    ChecksumMismatch,
    /// The session key claims to be unencrypted.
    PlaintextSessionKey,
    /// The secret key belongs to an algorithm that only signs.
    SigningOnlyKey,
    /// The algorithm or packet type is known but not supported.
    Unimplemented,
    /// The algorithm is not one this library can run.
    Unsupported,
    /// A public-key operation failed.
    CryptoFailure,
    /// The two octets in front of encrypted data do not repeat the two
    /// before them: the key is wrong.
    PrefixMismatch,
    /// The integrity trailer of protected data does not match.
    IntegrityCheckFailed,
    /// A text field is not valid UTF-8.
    InvalidUtf8,
}

/// The outcome of an operation that yields octets, over their sequence.
pub open spec fn bytes_result(r: Result<Vec<u8>, Error>) -> Result<Seq<u8>, Error> {
    match r {
        Ok(v) => Ok(v@),
        Err(e) => Err(e),
    }
}

} // verus!

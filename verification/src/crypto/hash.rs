//! Hash algorithm identifiers and message digests.

use vstd::prelude::*;
use crate::errors::Error;
use sha1::Digest;

verus! {

/// The hash algorithms that a packet can name.
#[allow(non_camel_case_types)]
#[derive(Debug, Clone, Copy, PartialEq, Eq, Structural)]
pub enum HashAlgorithm {
    MD5,
    SHA1,
    RIPEMD160,
    SHA2_256,
    SHA2_384,
    SHA2_512,
    SHA2_224,
    SHA3_256,
    SHA3_512,
    Private10,
}

/// The SHA-1 digest of a message.
pub uninterp spec fn sha1_of(data: Seq<u8>) -> Seq<u8>;

/// The SHA-224 digest of a message.
pub uninterp spec fn sha224_of(data: Seq<u8>) -> Seq<u8>;

/// The SHA-256 digest of a message.
pub uninterp spec fn sha256_of(data: Seq<u8>) -> Seq<u8>;

/// The SHA-384 digest of a message.
pub uninterp spec fn sha384_of(data: Seq<u8>) -> Seq<u8>;

/// The SHA-512 digest of a message.
pub uninterp spec fn sha512_of(data: Seq<u8>) -> Seq<u8>;

/// Calls `sha1::Sha1::digest`. Trusted: the result is the SHA-1 digest of
/// `data`, which has 20 octets.
#[verifier::external_body]
fn sha1_digest(data: &[u8]) -> (out: Vec<u8>)
    ensures
        out@ == sha1_of(data@),
        out@.len() == 20,
{
    sha1::Sha1::digest(data).to_vec()
}

/// Calls `sha2::Sha224::digest`. Trusted: the result is the SHA-224 digest
/// of `data`, which has 28 octets.
#[verifier::external_body]
fn sha224_digest(data: &[u8]) -> (out: Vec<u8>)
    ensures
        out@ == sha224_of(data@),
        out@.len() == 28,
{
    sha2::Sha224::digest(data).to_vec()
}

/// Calls `sha2::Sha256::digest`. Trusted: the result is the SHA-256 digest
/// of `data`, which has 32 octets.
#[verifier::external_body]
fn sha256_digest(data: &[u8]) -> (out: Vec<u8>)
    ensures
        out@ == sha256_of(data@),
        out@.len() == 32,
{
    sha2::Sha256::digest(data).to_vec()
}

/// Calls `sha2::Sha384::digest`. Trusted: the result is the SHA-384 digest
/// of `data`, which has 48 octets.
#[verifier::external_body]
fn sha384_digest(data: &[u8]) -> (out: Vec<u8>)
    ensures
        out@ == sha384_of(data@),
        out@.len() == 48,
{
    sha2::Sha384::digest(data).to_vec()
}

/// Calls `sha2::Sha512::digest`. Trusted: the result is the SHA-512 digest
/// of `data`, which has 64 octets.
#[verifier::external_body]
fn sha512_digest(data: &[u8]) -> (out: Vec<u8>)
    ensures
        out@ == sha512_of(data@),
        out@.len() == 64,
{
    sha2::Sha512::digest(data).to_vec()
}

impl HashAlgorithm {
    /// The algorithm that an identifier octet names, if any.
    pub open spec fn of_id(id: u8) -> Option<HashAlgorithm> {
        if id == 1 {
            Some(HashAlgorithm::MD5)
        } else if id == 2 {
            Some(HashAlgorithm::SHA1)
        } else if id == 3 {
            Some(HashAlgorithm::RIPEMD160)
        } else if id == 8 {
            Some(HashAlgorithm::SHA2_256)
        } else if id == 9 {
            Some(HashAlgorithm::SHA2_384)
        } else if id == 10 {
            Some(HashAlgorithm::SHA2_512)
        } else if id == 11 {
            Some(HashAlgorithm::SHA2_224)
        } else if id == 12 {
            Some(HashAlgorithm::SHA3_256)
        } else if id == 14 {
            Some(HashAlgorithm::SHA3_512)
        } else if id == 110 {
            Some(HashAlgorithm::Private10)
        } else {
            None
        }
    }

    /// The identifier octet of the algorithm.
    pub open spec fn id(self) -> u8 {
        match self {
            HashAlgorithm::MD5 => 1,
            HashAlgorithm::SHA1 => 2,
            HashAlgorithm::RIPEMD160 => 3,
            HashAlgorithm::SHA2_256 => 8,
            HashAlgorithm::SHA2_384 => 9,
            HashAlgorithm::SHA2_512 => 10,
            HashAlgorithm::SHA2_224 => 11,
            HashAlgorithm::SHA3_256 => 12,
            HashAlgorithm::SHA3_512 => 14,
            HashAlgorithm::Private10 => 110,
        }
    }

    /// The digest of `data` under this algorithm; `None` for an algorithm
    /// that the library cannot run.
    pub open spec fn digest_of(self, data: Seq<u8>) -> Option<Seq<u8>> {
        match self {
            HashAlgorithm::SHA1 => Some(sha1_of(data)),
            HashAlgorithm::SHA2_224 => Some(sha224_of(data)),
            HashAlgorithm::SHA2_256 => Some(sha256_of(data)),
            HashAlgorithm::SHA2_384 => Some(sha384_of(data)),
            HashAlgorithm::SHA2_512 => Some(sha512_of(data)),
            _ => None,
        }
    }

    /// The length of a digest in octets; 0 for an algorithm that the
    /// library cannot run.
    pub open spec fn spec_digest_size(self) -> nat {
        match self {
            HashAlgorithm::SHA1 => 20,
            HashAlgorithm::SHA2_224 => 28,
            HashAlgorithm::SHA2_256 => 32,
            HashAlgorithm::SHA2_384 => 48,
            HashAlgorithm::SHA2_512 => 64,
            _ => 0,
        }
    }

    /// Reads an identifier octet.
    pub fn from_u8(id: u8) -> (alg: Option<HashAlgorithm>)
        ensures
            alg == HashAlgorithm::of_id(id),
    {
        match id {
            1 => Some(HashAlgorithm::MD5),
            2 => Some(HashAlgorithm::SHA1),
            3 => Some(HashAlgorithm::RIPEMD160),
            8 => Some(HashAlgorithm::SHA2_256),
            9 => Some(HashAlgorithm::SHA2_384),
            10 => Some(HashAlgorithm::SHA2_512),
            11 => Some(HashAlgorithm::SHA2_224),
            12 => Some(HashAlgorithm::SHA3_256),
            14 => Some(HashAlgorithm::SHA3_512),
            110 => Some(HashAlgorithm::Private10),
            _ => None,
        }
    }

    /// Writes the identifier octet.
    pub fn to_u8(self) -> (id: u8)
        ensures
            id == self.id(),
    {
        match self {
            HashAlgorithm::MD5 => 1,
            HashAlgorithm::SHA1 => 2,
            HashAlgorithm::RIPEMD160 => 3,
            HashAlgorithm::SHA2_256 => 8,
            HashAlgorithm::SHA2_384 => 9,
            HashAlgorithm::SHA2_512 => 10,
            HashAlgorithm::SHA2_224 => 11,
            HashAlgorithm::SHA3_256 => 12,
            HashAlgorithm::SHA3_512 => 14,
            HashAlgorithm::Private10 => 110,
        }
    }

    /// The length of a digest in octets; 0 for an algorithm that the
    /// library cannot run.
    pub fn digest_size(self) -> (n: usize)
        ensures
            n == self.spec_digest_size(),
    {
        match self {
            HashAlgorithm::SHA1 => 20,
            HashAlgorithm::SHA2_224 => 28,
            HashAlgorithm::SHA2_256 => 32,
            HashAlgorithm::SHA2_384 => 48,
            HashAlgorithm::SHA2_512 => 64,
            _ => 0,
        }
    }

    /// Computes the digest of `data`. Fails with `Unsupported` exactly for
    /// the algorithms that have no digest here.
    pub fn digest(self, data: &[u8]) -> (out: Result<Vec<u8>, Error>)
        ensures
            match out {
                Ok(d) => self.digest_of(data@) == Some(d@) && d@.len()
                    == self.spec_digest_size(),
                Err(e) => self.digest_of(data@) is None && e == Error::Unsupported,
            },
    {
        match self {
            HashAlgorithm::SHA1 => Ok(sha1_digest(data)),
            HashAlgorithm::SHA2_224 => Ok(sha224_digest(data)),
            HashAlgorithm::SHA2_256 => Ok(sha256_digest(data)),
            HashAlgorithm::SHA2_384 => Ok(sha384_digest(data)),
            HashAlgorithm::SHA2_512 => Ok(sha512_digest(data)),
            _ => Err(Error::Unsupported),
        }
    }
}

impl Default for HashAlgorithm {
    fn default() -> (alg: HashAlgorithm)
        ensures
            alg == HashAlgorithm::SHA2_256,
    {
        HashAlgorithm::SHA2_256
    }
}

/// An identifier that names an algorithm is the identifier of that
/// algorithm.
pub proof fn lemma_hash_id_round_trip(id: u8)
    requires
        HashAlgorithm::of_id(id) is Some,
    ensures
        HashAlgorithm::of_id(id)->0.id() == id,
{
}

/// Every algorithm is named by its own identifier.
pub proof fn lemma_hash_of_own_id(alg: HashAlgorithm)
    ensures
        HashAlgorithm::of_id(alg.id()) == Some(alg),
{
}

} // verus!

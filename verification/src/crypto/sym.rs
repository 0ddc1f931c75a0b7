//! Symmetric-key algorithm identifiers and their sizes.

use vstd::prelude::*;
use vstd::slice::{slice_subrange, slice_to_vec};
use vstd::std_specs::convert::FromSpecImpl;
use cfb_mode::cipher::{AsyncStreamCipher, KeyIvInit};
use crate::crypto::hash::{HashAlgorithm, sha1_of};
use crate::errors::{Error, bytes_result};
use crate::util::bytes_equal;

verus! {

/// The symmetric ciphers that a packet can name.
#[derive(Debug, Clone, Copy, PartialEq, Eq, Structural)]
pub enum SymmetricKeyAlgorithm {
    /// Plaintext or unencrypted data.
    Plaintext,
    IDEA,
    /// Triple-DES.
    TripleDES,
    /// CAST5.
    CAST5,
    Blowfish,
    AES128,
    AES192,
    AES256,
    Twofish,
    Camellia128,
    Camellia192,
    Camellia256,
    Private10,
    /// An identifier with no assigned meaning.
    Other(u8),
}

impl SymmetricKeyAlgorithm {
    /// The algorithm that an identifier octet names.
    pub open spec fn of_id(id: u8) -> SymmetricKeyAlgorithm {
        if id == 0 {
            SymmetricKeyAlgorithm::Plaintext
        } else if id == 1 {
            SymmetricKeyAlgorithm::IDEA
        } else if id == 2 {
            SymmetricKeyAlgorithm::TripleDES
        } else if id == 3 {
            SymmetricKeyAlgorithm::CAST5
        } else if id == 4 {
            SymmetricKeyAlgorithm::Blowfish
        } else if id == 7 {
            SymmetricKeyAlgorithm::AES128
        } else if id == 8 {
            SymmetricKeyAlgorithm::AES192
        } else if id == 9 {
            SymmetricKeyAlgorithm::AES256
        } else if id == 10 {
            SymmetricKeyAlgorithm::Twofish
        } else if id == 11 {
            SymmetricKeyAlgorithm::Camellia128
        } else if id == 12 {
            SymmetricKeyAlgorithm::Camellia192
        } else if id == 13 {
            SymmetricKeyAlgorithm::Camellia256
        } else if id == 110 {
            SymmetricKeyAlgorithm::Private10
        } else {
            SymmetricKeyAlgorithm::Other(id)
        }
    }

    /// The identifier octet of the algorithm.
    pub open spec fn id(self) -> u8 {
        match self {
            SymmetricKeyAlgorithm::Plaintext => 0,
            SymmetricKeyAlgorithm::IDEA => 1,
            SymmetricKeyAlgorithm::TripleDES => 2,
            SymmetricKeyAlgorithm::CAST5 => 3,
            SymmetricKeyAlgorithm::Blowfish => 4,
            SymmetricKeyAlgorithm::AES128 => 7,
            SymmetricKeyAlgorithm::AES192 => 8,
            SymmetricKeyAlgorithm::AES256 => 9,
            SymmetricKeyAlgorithm::Twofish => 10,
            SymmetricKeyAlgorithm::Camellia128 => 11,
            SymmetricKeyAlgorithm::Camellia192 => 12,
            SymmetricKeyAlgorithm::Camellia256 => 13,
            SymmetricKeyAlgorithm::Private10 => 110,
            SymmetricKeyAlgorithm::Other(id) => id,
        }
    }

    /// The key length of the cipher in octets; 0 where there is no cipher.
    pub open spec fn spec_key_size(self) -> nat {
        match self {
            SymmetricKeyAlgorithm::Plaintext => 0,
            SymmetricKeyAlgorithm::IDEA => 16,
            SymmetricKeyAlgorithm::TripleDES => 24,
            SymmetricKeyAlgorithm::CAST5 => 16,
            SymmetricKeyAlgorithm::Blowfish => 16,
            SymmetricKeyAlgorithm::AES128 => 16,
            SymmetricKeyAlgorithm::AES192 => 24,
            SymmetricKeyAlgorithm::AES256 => 32,
            SymmetricKeyAlgorithm::Twofish => 32,
            SymmetricKeyAlgorithm::Camellia128 => 16,
            SymmetricKeyAlgorithm::Camellia192 => 24,
            SymmetricKeyAlgorithm::Camellia256 => 32,
            SymmetricKeyAlgorithm::Private10 => 0,
            SymmetricKeyAlgorithm::Other(_) => 0,
        }
    }

    /// The block length of the cipher in octets; 0 where there is no cipher.
    pub open spec fn spec_block_size(self) -> nat {
        match self {
            SymmetricKeyAlgorithm::Plaintext => 0,
            SymmetricKeyAlgorithm::IDEA => 8,
            SymmetricKeyAlgorithm::TripleDES => 8,
            SymmetricKeyAlgorithm::CAST5 => 8,
            SymmetricKeyAlgorithm::Blowfish => 8,
            SymmetricKeyAlgorithm::AES128 => 16,
            SymmetricKeyAlgorithm::AES192 => 16,
            SymmetricKeyAlgorithm::AES256 => 16,
            SymmetricKeyAlgorithm::Twofish => 16,
            SymmetricKeyAlgorithm::Camellia128 => 16,
            SymmetricKeyAlgorithm::Camellia192 => 16,
            SymmetricKeyAlgorithm::Camellia256 => 16,
            SymmetricKeyAlgorithm::Private10 => 0,
            SymmetricKeyAlgorithm::Other(_) => 0,
        }
    }

    /// The key length of the cipher in octets.
    pub fn key_size(self) -> (n: usize)
        ensures
            n == self.spec_key_size(),
    {
        match self {
            SymmetricKeyAlgorithm::Plaintext => 0,
            SymmetricKeyAlgorithm::IDEA => 16,
            SymmetricKeyAlgorithm::TripleDES => 24,
            SymmetricKeyAlgorithm::CAST5 => 16,
            SymmetricKeyAlgorithm::Blowfish => 16,
            SymmetricKeyAlgorithm::AES128 => 16,
            SymmetricKeyAlgorithm::AES192 => 24,
            SymmetricKeyAlgorithm::AES256 => 32,
            SymmetricKeyAlgorithm::Twofish => 32,
            SymmetricKeyAlgorithm::Camellia128 => 16,
            SymmetricKeyAlgorithm::Camellia192 => 24,
            SymmetricKeyAlgorithm::Camellia256 => 32,
            SymmetricKeyAlgorithm::Private10 => 0,
            SymmetricKeyAlgorithm::Other(_) => 0,
        }
    }

    /// The block length of the cipher in octets.
    pub fn block_size(self) -> (n: usize)
        ensures
            n == self.spec_block_size(),
    {
        match self {
            SymmetricKeyAlgorithm::Plaintext => 0,
            SymmetricKeyAlgorithm::IDEA => 8,
            SymmetricKeyAlgorithm::TripleDES => 8,
            SymmetricKeyAlgorithm::CAST5 => 8,
            SymmetricKeyAlgorithm::Blowfish => 8,
            SymmetricKeyAlgorithm::AES128 => 16,
            SymmetricKeyAlgorithm::AES192 => 16,
            SymmetricKeyAlgorithm::AES256 => 16,
            SymmetricKeyAlgorithm::Twofish => 16,
            SymmetricKeyAlgorithm::Camellia128 => 16,
            SymmetricKeyAlgorithm::Camellia192 => 16,
            SymmetricKeyAlgorithm::Camellia256 => 16,
            SymmetricKeyAlgorithm::Private10 => 0,
            SymmetricKeyAlgorithm::Other(_) => 0,
        }
    }

    /// The algorithm that an identifier octet names, where the octet has
    /// an assigned meaning.
    pub open spec fn known_id(id: u8) -> Option<SymmetricKeyAlgorithm> {
        if SymmetricKeyAlgorithm::of_id(id) is Other {
            None
        } else {
            Some(SymmetricKeyAlgorithm::of_id(id))
        }
    }

    /// Reads an identifier octet with an assigned meaning.
    pub fn from_u8(id: u8) -> (out: Option<SymmetricKeyAlgorithm>)
        ensures
            out == SymmetricKeyAlgorithm::known_id(id),
    {
        match SymmetricKeyAlgorithm::from(id) {
            SymmetricKeyAlgorithm::Other(_) => None,
            alg => Some(alg),
        }
    }

    /// Whether this is the marker for unencrypted data.
    pub fn is_plaintext(self) -> (b: bool)
        ensures
            b == (self == SymmetricKeyAlgorithm::Plaintext),
    {
        match self {
            SymmetricKeyAlgorithm::Plaintext => true,
            _ => false,
        }
    }
}

impl From<u8> for SymmetricKeyAlgorithm {
    fn from(id: u8) -> (alg: SymmetricKeyAlgorithm) {
        match id {
            0 => SymmetricKeyAlgorithm::Plaintext,
            1 => SymmetricKeyAlgorithm::IDEA,
            2 => SymmetricKeyAlgorithm::TripleDES,
            3 => SymmetricKeyAlgorithm::CAST5,
            4 => SymmetricKeyAlgorithm::Blowfish,
            7 => SymmetricKeyAlgorithm::AES128,
            8 => SymmetricKeyAlgorithm::AES192,
            9 => SymmetricKeyAlgorithm::AES256,
            10 => SymmetricKeyAlgorithm::Twofish,
            11 => SymmetricKeyAlgorithm::Camellia128,
            12 => SymmetricKeyAlgorithm::Camellia192,
            13 => SymmetricKeyAlgorithm::Camellia256,
            110 => SymmetricKeyAlgorithm::Private10,
            _ => SymmetricKeyAlgorithm::Other(id),
        }
    }
}

impl FromSpecImpl<u8> for SymmetricKeyAlgorithm {
    open spec fn obeys_from_spec() -> bool {
        true
    }

    open spec fn from_spec(id: u8) -> SymmetricKeyAlgorithm {
        SymmetricKeyAlgorithm::of_id(id)
    }
}

impl From<SymmetricKeyAlgorithm> for u8 {
    fn from(alg: SymmetricKeyAlgorithm) -> (id: u8) {
        match alg {
            SymmetricKeyAlgorithm::Plaintext => 0,
            SymmetricKeyAlgorithm::IDEA => 1,
            SymmetricKeyAlgorithm::TripleDES => 2,
            SymmetricKeyAlgorithm::CAST5 => 3,
            SymmetricKeyAlgorithm::Blowfish => 4,
            SymmetricKeyAlgorithm::AES128 => 7,
            SymmetricKeyAlgorithm::AES192 => 8,
            SymmetricKeyAlgorithm::AES256 => 9,
            SymmetricKeyAlgorithm::Twofish => 10,
            SymmetricKeyAlgorithm::Camellia128 => 11,
            SymmetricKeyAlgorithm::Camellia192 => 12,
            SymmetricKeyAlgorithm::Camellia256 => 13,
            SymmetricKeyAlgorithm::Private10 => 110,
            SymmetricKeyAlgorithm::Other(id) => id,
        }
    }
}

impl FromSpecImpl<SymmetricKeyAlgorithm> for u8 {
    open spec fn obeys_from_spec() -> bool {
        true
    }

    open spec fn from_spec(alg: SymmetricKeyAlgorithm) -> u8 {
        alg.id()
    }
}

/// What AES in cipher-feedback mode gives when it decrypts `data` under
/// `key`, starting from the initialization vector `iv`; the length of the
/// key selects AES-128, AES-192 or AES-256.
pub uninterp spec fn cfb_decrypt_of(key: Seq<u8>, iv: Seq<u8>, data: Seq<u8>) -> Seq<u8>;

/// Calls `cfb_mode::Decryptor::decrypt` with AES-128. Trusted: with a key
/// and an initialization vector of 16 octets each it succeeds, and the
/// result is as long as `data`.
#[verifier::external_body]
fn cfb_decrypt_aes128(key: &[u8], iv: &[u8], data: &[u8]) -> (out: Result<Vec<u8>, Error>)
    requires
        key@.len() == 16,
        iv@.len() == 16,
    ensures
        out is Ok,
        out matches Ok(v) ==> v@ == cfb_decrypt_of(key@, iv@, data@) && v@.len() == data@.len(),
{
    let mode = cfb_mode::Decryptor::<aes::Aes128>::new_from_slices(key, iv);
    let mut buf = data.to_vec();
    mode.map_err(|_| Error::InvalidKeyLength)?.decrypt(&mut buf);
    Ok(buf)
}

/// Calls `cfb_mode::Decryptor::decrypt` with AES-192. Trusted: as for
/// AES-128, with a key of 24 octets.
#[verifier::external_body]
fn cfb_decrypt_aes192(key: &[u8], iv: &[u8], data: &[u8]) -> (out: Result<Vec<u8>, Error>)
    requires
        key@.len() == 24,
        iv@.len() == 16,
    ensures
        out is Ok,
        out matches Ok(v) ==> v@ == cfb_decrypt_of(key@, iv@, data@) && v@.len() == data@.len(),
{
    let mode = cfb_mode::Decryptor::<aes::Aes192>::new_from_slices(key, iv);
    let mut buf = data.to_vec();
    mode.map_err(|_| Error::InvalidKeyLength)?.decrypt(&mut buf);
    Ok(buf)
}

/// Calls `cfb_mode::Decryptor::decrypt` with AES-256. Trusted: as for
/// AES-128, with a key of 32 octets.
#[verifier::external_body]
fn cfb_decrypt_aes256(key: &[u8], iv: &[u8], data: &[u8]) -> (out: Result<Vec<u8>, Error>)
    requires
        key@.len() == 32,
        iv@.len() == 16,
    ensures
        out is Ok,
        out matches Ok(v) ==> v@ == cfb_decrypt_of(key@, iv@, data@) && v@.len() == data@.len(),
{
    let mode = cfb_mode::Decryptor::<aes::Aes256>::new_from_slices(key, iv);
    let mut buf = data.to_vec();
    mode.map_err(|_| Error::InvalidKeyLength)?.decrypt(&mut buf);
    Ok(buf)
}

/// A run of `n` zero octets.
pub open spec fn zeros(n: nat) -> Seq<u8> {
    Seq::new(n, |i: int| 0u8)
}

/// The length of the trailer that protects a packet: two octets of header
/// and a SHA-1 digest.
pub const MDC_LEN: usize = 22;

impl SymmetricKeyAlgorithm {
    /// Whether the library can run the cipher.
    pub open spec fn is_aes(self) -> bool {
        self == SymmetricKeyAlgorithm::AES128 || self == SymmetricKeyAlgorithm::AES192 || self
            == SymmetricKeyAlgorithm::AES256
    }

    /// What decryption in cipher-feedback mode gives: `Unsupported` for a
    /// cipher other than AES, `InvalidKeyLength` for a key that the cipher
    /// does not take, `InvalidInput` for an initialization vector that is
    /// not one block long.
    pub open spec fn cfb_spec(self, key: Seq<u8>, iv: Seq<u8>, data: Seq<u8>) -> Result<
        Seq<u8>,
        Error,
    > {
        if !self.is_aes() {
            Err(Error::Unsupported)
        } else if key.len() != self.spec_key_size() {
            Err(Error::InvalidKeyLength)
        } else if iv.len() != self.spec_block_size() {
            Err(Error::InvalidInput)
        } else {
            Ok(cfb_decrypt_of(key, iv, data))
        }
    }

    /// Decrypts `ciphertext` in cipher-feedback mode from the
    /// initialization vector `iv`, without any prefix.
    pub fn decrypt_with_iv_regular(self, key: &[u8], iv: &[u8], ciphertext: &[u8]) -> (out: Result<
        Vec<u8>,
        Error,
    >)
        ensures
            bytes_result(out) == self.cfb_spec(key@, iv@, ciphertext@),
            out matches Ok(v) ==> v@.len() == ciphertext@.len(),
    {
        match self {
            SymmetricKeyAlgorithm::AES128 => {
                if key.len() != 16 {
                    Err(Error::InvalidKeyLength)
                } else if iv.len() != 16 {
                    Err(Error::InvalidInput)
                } else {
                    cfb_decrypt_aes128(key, iv, ciphertext)
                }
            },
            SymmetricKeyAlgorithm::AES192 => {
                if key.len() != 24 {
                    Err(Error::InvalidKeyLength)
                } else if iv.len() != 16 {
                    Err(Error::InvalidInput)
                } else {
                    cfb_decrypt_aes192(key, iv, ciphertext)
                }
            },
            SymmetricKeyAlgorithm::AES256 => {
                if key.len() != 32 {
                    Err(Error::InvalidKeyLength)
                } else if iv.len() != 16 {
                    Err(Error::InvalidInput)
                } else {
                    cfb_decrypt_aes256(key, iv, ciphertext)
                }
            },
            _ => Err(Error::Unsupported),
        }
    }

    /// Whether the two octets in front of the data repeat the two before
    /// them.
    pub open spec fn prefix_repeats(self, plain: Seq<u8>) -> bool
        recommends
            self.spec_block_size() >= 2,
            plain.len() >= self.spec_block_size() + 2,
    {
        let bs = self.spec_block_size() as int;
        plain[bs - 2] == plain[bs] && plain[bs - 1] == plain[bs + 1]
    }

    /// The content of an integrity-protected packet: the packet is
    /// decrypted as a whole from an all-zero initialization vector; behind
    /// a random block whose last two octets are repeated comes the content,
    /// and behind it the octets 0xD3 and 0x14 and the SHA-1 digest of all
    /// that stands before the digest.
    pub open spec fn protected_spec(self, key: Seq<u8>, ciphertext: Seq<u8>) -> Result<
        Seq<u8>,
        Error,
    > {
        let bs = self.spec_block_size() as int;
        match self.cfb_spec(key, zeros(bs as nat), ciphertext) {
            Err(e) => Err(e),
            Ok(plain) => {
                let len = ciphertext.len() as int;
                if len < bs + 2 + MDC_LEN {
                    Err(Error::InvalidInput)
                } else if !self.prefix_repeats(plain) {
                    Err(Error::PrefixMismatch)
                } else if plain[len - 22] != 0xD3 || plain[len - 21] != 0x14 || plain.subrange(
                    len - 20,
                    len,
                ) != sha1_of(plain.subrange(0, len - 20)) {
                    Err(Error::IntegrityCheckFailed)
                } else {
                    Ok(plain.subrange(bs + 2, len - 22))
                }
            },
        }
    }

    /// The content of a packet without integrity protection: a random
    /// block and the repetition of its last two octets are decrypted from
    /// an all-zero initialization vector; the content behind them is
    /// decrypted anew, from the ciphertext of the block's length that
    /// stands in front of it.
    pub open spec fn unprotected_spec(self, key: Seq<u8>, ciphertext: Seq<u8>) -> Result<
        Seq<u8>,
        Error,
    > {
        let bs = self.spec_block_size() as int;
        let len = ciphertext.len() as int;
        if !self.is_aes() {
            Err(Error::Unsupported)
        } else if key.len() != self.spec_key_size() {
            Err(Error::InvalidKeyLength)
        } else if len < bs + 2 {
            Err(Error::InvalidInput)
        } else if !self.prefix_repeats(
            cfb_decrypt_of(key, zeros(bs as nat), ciphertext.subrange(0, bs + 2)),
        ) {
            Err(Error::PrefixMismatch)
        } else {
            Ok(
                cfb_decrypt_of(
                    key,
                    ciphertext.subrange(2, bs + 2),
                    ciphertext.subrange(bs + 2, len),
                ),
            )
        }
    }

    /// Decrypts an integrity-protected packet and checks its trailer.
    pub fn decrypt_protected(self, key: &[u8], ciphertext: &[u8]) -> (out: Result<Vec<u8>, Error>)
        ensures
            bytes_result(out) == self.protected_spec(key@, ciphertext@),
    {
        let bs = self.block_size();
        let iv: Vec<u8> = vec![0u8; bs];
        assert(iv@ =~= zeros(bs as nat));
        let plain = match self.decrypt_with_iv_regular(key, iv.as_slice(), ciphertext) {
            Ok(p) => p,
            Err(e) => {
                return Err(e);
            },
        };
        let len = plain.len();
        if len < bs + 2 + MDC_LEN {
            return Err(Error::InvalidInput);
        }
        if plain[bs - 2] != plain[bs] || plain[bs - 1] != plain[bs + 1] {
            return Err(Error::PrefixMismatch);
        }
        if plain[len - 22] != 0xD3 || plain[len - 21] != 0x14 {
            return Err(Error::IntegrityCheckFailed);
        }
        let digest = match HashAlgorithm::SHA1.digest(slice_subrange(plain.as_slice(), 0, len - 20)) {
            Ok(d) => d,
            Err(e) => {
                return Err(e);
            },
        };
        if !bytes_equal(slice_subrange(plain.as_slice(), len - 20, len), digest.as_slice()) {
            return Err(Error::IntegrityCheckFailed);
        }
        Ok(slice_to_vec(slice_subrange(plain.as_slice(), bs + 2, len - 22)))
    }

    /// Decrypts a packet without integrity protection.
    pub fn decrypt(self, key: &[u8], ciphertext: &[u8]) -> (out: Result<Vec<u8>, Error>)
        ensures
            bytes_result(out) == self.unprotected_spec(key@, ciphertext@),
    {
        let bs = self.block_size();
        let len = ciphertext.len();
        let iv: Vec<u8> = vec![0u8; bs];
        assert(iv@ =~= zeros(bs as nat));
        match self {
            SymmetricKeyAlgorithm::AES128 => {},
            SymmetricKeyAlgorithm::AES192 => {},
            SymmetricKeyAlgorithm::AES256 => {},
            _ => {
                return Err(Error::Unsupported);
            },
        }
        if key.len() != self.key_size() {
            return Err(Error::InvalidKeyLength);
        }
        if len < bs + 2 {
            return Err(Error::InvalidInput);
        }
        let prefix = match self.decrypt_with_iv_regular(
            key,
            iv.as_slice(),
            slice_subrange(ciphertext, 0, bs + 2),
        ) {
            Ok(p) => p,
            Err(e) => {
                return Err(e);
            },
        };
        if prefix[bs - 2] != prefix[bs] || prefix[bs - 1] != prefix[bs + 1] {
            return Err(Error::PrefixMismatch);
        }
        self.decrypt_with_iv_regular(
            key,
            slice_subrange(ciphertext, 2, bs + 2),
            slice_subrange(ciphertext, bs + 2, len),
        )
    }
}

/// Reading an identifier and writing it back gives the same octet.
pub proof fn lemma_id_of_id(id: u8)
    ensures
        SymmetricKeyAlgorithm::of_id(id).id() == id,
{
}

/// Only the octet 0 names unencrypted data.
pub proof fn lemma_plaintext_is_zero(id: u8)
    ensures
        SymmetricKeyAlgorithm::of_id(id) == SymmetricKeyAlgorithm::Plaintext <==> id == 0,
{
}

} // verus!

//! String-to-key specifiers: how a passphrase becomes a key.

use vstd::prelude::*;
use vstd::arithmetic::power2::{lemma2_to64, lemma_pow2_strictly_increases, lemma_pow2_unfold, pow2};
use crate::crypto::hash::HashAlgorithm;
use crate::crypto::sym::zeros;
use crate::errors::{Error, bytes_result};

verus! {

/// How a passphrase is stretched into a key.
#[derive(Debug, Clone, Copy)]
pub enum StringToKey {
    /// The passphrase is hashed as it is.
    Simple { hash: HashAlgorithm },
    /// The passphrase is hashed behind a salt.
    Salted { hash: HashAlgorithm, salt: [u8; 8] },
    /// Salt and passphrase are hashed over and over, up to a coded count
    /// of octets.
    IteratedAndSalted { hash: HashAlgorithm, salt: [u8; 8], count: u8 },
}

/// The number of octets that a coded count stands for.
pub open spec fn count_of(c: u8) -> nat {
    ((16 + c % 16) * pow2((c / 16 + 6) as nat)) as nat
}

/// The first `total` octets of `unit` repeated without end.
pub open spec fn cyclic(unit: Seq<u8>, total: nat) -> Seq<u8>
    recommends
        unit.len() > 0,
{
    Seq::new(total, |i: int| unit[i % unit.len() as int])
}

/// How many digests of `digest_size` octets cover `key_size` octets.
pub open spec fn rounds_for(key_size: nat, digest_size: nat) -> nat
    recommends
        key_size > 0,
        digest_size > 0,
{
    ((key_size - 1) / digest_size as int + 1) as nat
}

/// Decodes a count of octets.
pub fn decode_count(c: u8) -> (n: usize)
    ensures
        n == count_of(c),
        1024 <= n <= 65011712,
{
    let base: usize = 16 + (c % 16) as usize;
    let shift: u8 = c / 16 + 6;
    let mut n: usize = base;
    let mut i: u8 = 0;
    proof {
        lemma2_to64();
    }
    while i < shift
        invariant
            i <= shift <= 21,
            16 <= base <= 31,
            n == base * pow2(i as nat),
            n <= 31 * 0x200000,
        decreases shift - i,
    {
        proof {
            lemma_pow2_unfold((i + 1) as nat);
            lemma2_to64();
            if i + 1 < 21 {
                lemma_pow2_strictly_increases((i + 1) as nat, 21);
            }
            assert(base * (2 * pow2(i as nat)) == 2 * (base * pow2(i as nat)))
                by (nonlinear_arith);
            assert(base * pow2((i + 1) as nat) <= 31 * 0x200000) by (nonlinear_arith)
                requires
                    base <= 31,
                    pow2((i + 1) as nat) <= 0x200000,
            ;
        }
        n = n * 2;
        i = i + 1;
    }
    proof {
        lemma2_to64();
        if 6 < shift {
            lemma_pow2_strictly_increases(6, shift as nat);
        }
        assert(base * pow2(shift as nat) >= 1024) by (nonlinear_arith)
            requires
                base >= 16,
                pow2(shift as nat) >= 64,
        ;
    }
    n
}

impl StringToKey {
    /// The hash that stretches the passphrase.
    pub open spec fn spec_hash(self) -> HashAlgorithm {
        match self {
            StringToKey::Simple { hash } => hash,
            StringToKey::Salted { hash, .. } => hash,
            StringToKey::IteratedAndSalted { hash, .. } => hash,
        }
    }

    /// What is hashed for the part of the key with the number `round`:
    /// that many zero octets, and then the passphrase, the salt and the
    /// passphrase, or salt and passphrase repeated up to the count, but at
    /// least once in full.
    pub open spec fn round_input(self, password: Seq<u8>, round: nat) -> Seq<u8> {
        zeros(round) + match self {
            StringToKey::Simple { .. } => password,
            StringToKey::Salted { salt, .. } => salt@ + password,
            StringToKey::IteratedAndSalted { salt, count, .. } => {
                let unit = salt@ + password;
                if count_of(count) < unit.len() {
                    unit
                } else {
                    cyclic(unit, count_of(count))
                }
            },
        }
    }

    /// The digests of the first `rounds` parts, one behind the other.
    pub open spec fn stream(self, password: Seq<u8>, rounds: nat) -> Seq<u8>
        decreases rounds,
    {
        if rounds == 0 {
            Seq::<u8>::empty()
        } else {
            self.stream(password, (rounds - 1) as nat) + self.spec_hash().digest_of(
                self.round_input(password, (rounds - 1) as nat),
            )->0
        }
    }

    /// The key of `key_size` octets that the passphrase gives: the first
    /// octets of as many digests as it takes. There is no key where the
    /// library cannot run the hash.
    pub open spec fn derive_key_spec(self, password: Seq<u8>, key_size: nat) -> Result<
        Seq<u8>,
        Error,
    > {
        let digest_size = self.spec_hash().spec_digest_size();
        if key_size == 0 {
            Ok(Seq::<u8>::empty())
        } else if digest_size == 0 {
            Err(Error::Unsupported)
        } else {
            Ok(self.stream(password, rounds_for(key_size, digest_size)).take(key_size as int))
        }
    }

    /// The hash that stretches the passphrase.
    pub fn hash(&self) -> (h: HashAlgorithm)
        ensures
            h == self.spec_hash(),
    {
        match self {
            StringToKey::Simple { hash } => *hash,
            StringToKey::Salted { hash, .. } => *hash,
            StringToKey::IteratedAndSalted { hash, .. } => *hash,
        }
    }

    /// Builds what is hashed for the part of the key with the number
    /// `round`.
    fn build_round_input(&self, password: &[u8], round: usize) -> (out: Vec<u8>)
        requires
            password@.len() + 8 <= usize::MAX,
        ensures
            out@ == self.round_input(password@, round as nat),
    {
        let mut out: Vec<u8> = vec![0u8; round];
        match self {
            StringToKey::Simple { .. } => {
                out.extend_from_slice(password);
            },
            StringToKey::Salted { salt, .. } => {
                out.extend_from_slice(salt.as_slice());
                out.extend_from_slice(password);
            },
            StringToKey::IteratedAndSalted { salt, count, .. } => {
                let mut unit: Vec<u8> = Vec::new();
                unit.extend_from_slice(salt.as_slice());
                unit.extend_from_slice(password);
                let total = decode_count(*count);
                if total < unit.len() {
                    out.extend_from_slice(unit.as_slice());
                } else {
                    let ghost head = out@;
                    let width: usize = unit.len();
                    let mut i: usize = 0;
                    let mut j: usize = 0;
                    while i < total
                        invariant
                            i <= total,
                            width == unit@.len() >= 8,
                            j < width,
                            j == (i as int) % (unit@.len() as int),
                            out@ == head + cyclic(unit@, i as nat),
                        decreases total - i,
                    {
                        out.push(unit[j]);
                        proof {
                            let n = unit@.len() as int;
                            assert(((i + 1) as int) % n == if j + 1 == n {
                                0
                            } else {
                                j + 1
                            }) by (nonlinear_arith)
                                requires
                                    j == (i as int) % n,
                                    0 <= j < n,
                                    i >= 0,
                            ;
                        }
                        i = i + 1;
                        j = if j + 1 == width {
                            0
                        } else {
                            j + 1
                        };
                    }
                }
            },
        }
        out
    }

    /// Derives a key of `key_size` octets from a passphrase.
    pub fn derive_key(&self, password: &[u8], key_size: usize) -> (out: Result<Vec<u8>, Error>)
        requires
            password@.len() + 8 <= usize::MAX,
        ensures
            bytes_result(out) == self.derive_key_spec(password@, key_size as nat),
            out matches Ok(key) ==> key@.len() == key_size,
    {
        if key_size == 0 {
            return Ok(Vec::new());
        }
        let hash = self.hash();
        let digest_size = hash.digest_size();
        if digest_size == 0 {
            return Err(Error::Unsupported);
        }
        let rounds: usize = (key_size - 1) / digest_size + 1;
        let mut key: Vec<u8> = Vec::new();
        let mut round: usize = 0;
        while round < rounds
            invariant
                round <= rounds,
                password@.len() + 8 <= usize::MAX,
                hash == self.spec_hash(),
                digest_size == hash.spec_digest_size(),
                digest_size > 0,
                key@ == self.stream(password@, round as nat),
                key@.len() == round * digest_size,
            decreases rounds - round,
        {
            let data = self.build_round_input(password, round);
            match hash.digest(data.as_slice()) {
                Ok(d) => {
                    key.extend_from_slice(d.as_slice());
                    assert((round + 1) * digest_size == round * digest_size + digest_size)
                        by (nonlinear_arith);
                },
                Err(e) => {
                    return Err(e);
                },
            }
            round = round + 1;
        }
        assert(rounds * digest_size >= key_size) by (nonlinear_arith)
            requires
                rounds == (key_size - 1) / (digest_size as int) + 1,
                digest_size > 0,
                key_size > 0,
        ;
        key.truncate(key_size);
        Ok(key)
    }
}

} // verus!

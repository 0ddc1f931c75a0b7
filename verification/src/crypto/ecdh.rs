//! ECDH key transport over Curve25519: key derivation, padding, and the
//! wrapping of a session key for a recipient.

use vstd::prelude::*;
use vstd::slice::{slice_subrange, slice_to_vec};
use block_padding::Padding;
use crate::crypto::aes_kw;
use crate::crypto::ecc_curve::ECCCurve;
use crate::crypto::hash::HashAlgorithm;
use crate::crypto::sym::SymmetricKeyAlgorithm;
use crate::errors::{Error, bytes_result};
use crate::types::mpi::{Mpi, right_aligned};
use crate::types::mpi::{lemma_right_align_restores, strip_leading_zeros};
use crate::types::params::{ECDHPublicParams, ECDHSecretKey, PlainSecretParams, PublicParams};
use crate::util::array_from;

verus! {

/// The public point that X25519 derives from the secret octets `secret`.
pub uninterp spec fn x25519_public_of(secret: Seq<u8>) -> Seq<u8>;

/// The secret that X25519 gives for the secret octets `secret` and the
/// other side's public point `their_public`.
pub uninterp spec fn x25519_shared_of(secret: Seq<u8>, their_public: Seq<u8>) -> Seq<u8>;

/// Calls `x25519_dalek::PublicKey::from` on the `StaticSecret` made of
/// `secret`. Trusted: the result is the public point of that secret.
#[verifier::external_body]
fn public_point(secret: &[u8; 32]) -> (out: [u8; 32])
    ensures
        out@ == x25519_public_of(secret@),
{
    x25519_dalek::PublicKey::from(&x25519_dalek::StaticSecret::from(*secret)).to_bytes()
}

/// Calls `x25519_dalek::StaticSecret::diffie_hellman`. Trusted: the result
/// is the shared secret of `secret` and `their_public`.
#[verifier::external_body]
fn shared_secret(secret: [u8; 32], their_public: [u8; 32]) -> (out: [u8; 32])
    ensures
        out@ == x25519_shared_of(secret@, their_public@),
{
    let ours = x25519_dalek::StaticSecret::from(secret);
    ours.diffie_hellman(&x25519_dalek::PublicKey::from(their_public)).to_bytes()
}

/// Calls `block_padding::Pkcs7::pad` on a block of 8 octets. Trusted: the
/// octets before `pos` stay, and each octet from `pos` on becomes the
/// number of octets from `pos` to the end of the block.
#[verifier::external_body]
fn pkcs7_pad_block(block: &mut [u8; 8], pos: usize)
    requires
        pos < 8,
    ensures
        forall|i: int| 0 <= i < pos ==> final(block)@[i] == old(block)@[i],
        forall|i: int| pos <= i < 8 ==> final(block)@[i] == 8 - pos,
{
    let buf = generic_array::GenericArray::<u8, generic_array::typenum::U8>::from_mut_slice(
        &mut block[..],
    );
    block_padding::Pkcs7::pad(buf, pos);
}

/// Calls `zeroize::Zeroize::zeroize` on a vector. Trusted: the vector is
/// empty afterwards.
#[verifier::external_body]
fn wipe(buf: &mut Vec<u8>)
    ensures
        final(buf)@.len() == 0,
{
    zeroize::Zeroize::zeroize(buf);
}

/// The 20 octets of the text "Anonymous Sender    ".
pub open spec fn anon_sender() -> Seq<u8> {
    seq![
        0x41u8, 0x6Eu8, 0x6Fu8, 0x6Eu8, 0x79u8, 0x6Du8, 0x6Fu8, 0x75u8, 0x73u8, 0x20u8, 0x53u8,
        0x65u8, 0x6Eu8, 0x64u8, 0x65u8, 0x72u8, 0x20u8, 0x20u8, 0x20u8, 0x20u8,
    ]
}

/// The parameter block of the key derivation: the length of the curve's
/// identifier and the identifier, the octet of the ECDH algorithm, the
/// four octets that name hash and cipher, the anonymous sender, and the
/// recipient's fingerprint.
pub open spec fn ecdh_param(
    oid: Seq<u8>,
    alg_sym: SymmetricKeyAlgorithm,
    hash: HashAlgorithm,
    fingerprint: Seq<u8>,
) -> Seq<u8> {
    seq![(oid.len() % 256) as u8] + oid + seq![0x12u8] + seq![0x03u8, 0x01u8, hash.id(), alg_sym.id()]
        + anon_sender() + fingerprint
}

/// Builds the parameter block of the key derivation.
pub fn build_ecdh_param(
    oid: &[u8],
    alg_sym: SymmetricKeyAlgorithm,
    hash: HashAlgorithm,
    fingerprint: &[u8],
) -> (out: Vec<u8>)
    ensures
        out@ == ecdh_param(oid@, alg_sym, hash, fingerprint@),
{
    let sender: [u8; 20] = [
        0x41, 0x6E, 0x6F, 0x6E, 0x79, 0x6D, 0x6F, 0x75, 0x73, 0x20, 0x53, 0x65, 0x6E, 0x64, 0x65,
        0x72, 0x20, 0x20, 0x20, 0x20,
    ];
    let mut out: Vec<u8> = Vec::new();
    out.push((oid.len() % 256) as u8);
    out.extend_from_slice(oid);
    out.push(0x12);
    out.push(0x03);
    out.push(0x01);
    out.push(hash.to_u8());
    out.push(u8::from(alg_sym));
    out.extend_from_slice(sender.as_slice());
    out.extend_from_slice(fingerprint);
    out
}

/// The key that the derivation gives: the digest of the counter 1 in four
/// octets, the shared secret and the parameter block, cut to `length`
/// octets.
pub open spec fn kdf_spec(
    hash: HashAlgorithm,
    x: Seq<u8>,
    length: nat,
    param: Seq<u8>,
) -> Result<Seq<u8>, Error> {
    match hash.digest_of(seq![0u8, 0u8, 0u8, 1u8] + x + param) {
        Some(d) => Ok(
            if length < d.len() {
                d.take(length as int)
            } else {
                d
            },
        ),
        None => Err(Error::Unsupported),
    }
}

/// The length of the key that the derivation gives where `length`
/// octets are asked for: no more than one digest.
pub open spec fn derived_key_len(hash: HashAlgorithm, length: nat) -> nat {
    if length < hash.spec_digest_size() {
        length
    } else {
        hash.spec_digest_size()
    }
}

/// Derives a key of at most `length` octets from the shared secret `x`.
/// It succeeds exactly where the hash has a digest, and the key is then
/// as long as asked for, or as long as one digest where that is less.
pub fn kdf(hash: HashAlgorithm, x: &[u8; 32], length: usize, param: &[u8]) -> (out: Result<
    Vec<u8>,
    Error,
>)
    ensures
        bytes_result(out) == kdf_spec(hash, x@, length as nat, param@),
        out is Ok <==> hash.spec_digest_size() > 0,
        out matches Ok(z) ==> z@.len() == derived_key_len(hash, length as nat),
{
    let mut data: Vec<u8> = Vec::new();
    data.push(0);
    data.push(0);
    data.push(0);
    data.push(1);
    data.extend_from_slice(x.as_slice());
    data.extend_from_slice(param);
    assert(data@ =~= seq![0u8, 0u8, 0u8, 1u8] + x@ + param@);
    match hash.digest(data.as_slice()) {
        Ok(d) => {
            let mut digest = d;
            if length < digest.len() {
                digest.truncate(length);
            }
            Ok(digest)
        },
        Err(e) => Err(e),
    }
}

/// How many octets padding adds to a text of `n` octets.
pub open spec fn pad_len(n: nat) -> nat {
    (8 - n % 8) as nat
}

/// `plain` with its padding: as many octets as lead to the next multiple
/// of 8, a whole block where the length is one already, each holding their
/// count.
pub open spec fn padded(plain: Seq<u8>) -> Seq<u8> {
    plain + Seq::new(pad_len(plain.len()), |i: int| pad_len(plain.len()) as u8)
}

/// Whether `s` is a text of at least one octet with well-formed padding:
/// its length is a positive multiple of 8, its last octet is at least 1
/// and less than the length, and as many octets at the end hold that
/// value.
pub open spec fn is_padded(s: Seq<u8>) -> bool {
    &&& s.len() % 8 == 0
    &&& s.len() > 0
    &&& 1 <= s.last() < s.len()
    &&& forall|i: int| s.len() - s.last() <= i < s.len() ==> s[i] == s.last()
}

/// The text that `s` holds in front of its padding.
pub open spec fn unpad_spec(s: Seq<u8>) -> Result<Seq<u8>, Error> {
    if is_padded(s) {
        Ok(s.take(s.len() - s.last()))
    } else {
        Err(Error::UnpadError)
    }
}

/// Pads `plain` to the next multiple of 8 octets.
pub fn pad(plain: &[u8]) -> (out: Vec<u8>)
    requires
        plain@.len() + 8 <= usize::MAX,
    ensures
        out@ == padded(plain@),
        out@.len() % 8 == 0,
        out@.len() == plain@.len() + pad_len(plain@.len()),
        out@.last() == pad_len(plain@.len()),
{
    let len = plain.len();
    let bs = 8 * (len / 8);
    let pos = len - bs;
    let mut out = slice_to_vec(slice_subrange(plain, 0, bs));
    let mut block: [u8; 8] = [0u8; 8];
    let mut i: usize = 0;
    while i < pos
        invariant
            i <= pos < 8,
            bs + pos == len,
            len == plain@.len(),
            forall|j: int| 0 <= j < i ==> block@[j] == plain@[bs + j],
        decreases pos - i,
    {
        block[i] = plain[bs + i];
        i = i + 1;
    }
    pkcs7_pad_block(&mut block, pos);
    out.extend_from_slice(block.as_slice());
    out
}

/// Takes the padding off an unwrapped key. Fails with `UnpadError` unless
/// the padding is well formed and leaves at least one octet.
pub fn unpad(padded_key: Vec<u8>) -> (out: Result<Vec<u8>, Error>)
    ensures
        bytes_result(out) == unpad_spec(padded_key@),
{
    let mut key = padded_key;
    let len = key.len();
    if len % 8 != 0 || len == 0 {
        return Err(Error::UnpadError);
    }
    let last = key[len - 1];
    let count = last as usize;
    if count == 0 || count >= len {
        return Err(Error::UnpadError);
    }
    let unpadded_len = len - count;
    let mut i: usize = unpadded_len;
    while i < len
        invariant
            unpadded_len <= i <= len,
            len == key@.len(),
            key@ == padded_key@,
            last == key@.last(),
            unpadded_len == len - last,
            forall|j: int| unpadded_len <= j < i ==> key@[j] == last,
        decreases len - i,
    {
        if key[i] != last {
            return Err(Error::UnpadError);
        }
        i = i + 1;
    }
    key.truncate(unpadded_len);
    Ok(key)
}

/// Nothing is taken off a key that is empty, whose last octet is 0, or
/// whose last octet is not less than its length.
pub proof fn lemma_unpad_rejects(s: Seq<u8>)
    requires
        s.len() == 0 || s.last() == 0 || s.last() >= s.len(),
    ensures
        unpad_spec(s) == Err::<Seq<u8>, Error>(Error::UnpadError),
{
}

/// Taking the padding off a padded text of at least one octet gives the
/// text back.
pub proof fn lemma_unpad_of_padded(plain: Seq<u8>)
    requires
        plain.len() >= 1,
    ensures
        padded(plain).len() % 8 == 0,
        padded(plain).len() == plain.len() + pad_len(plain.len()),
        1 <= pad_len(plain.len()) <= 8,
        padded(plain).last() == pad_len(plain.len()),
        is_padded(padded(plain)),
        unpad_spec(padded(plain)) == Ok::<Seq<u8>, Error>(plain),
{
    let s = padded(plain);
    assert(s.take(s.len() - s.last()) =~= plain);
}

/// The octets of `s` in the opposite order.
fn reversed(s: &[u8]) -> (out: Vec<u8>)
    ensures
        out@ == s@.reverse(),
{
    let mut out: Vec<u8> = Vec::new();
    let mut i: usize = s.len();
    while i > 0
        invariant
            i <= s@.len(),
            out@.len() == s@.len() - i,
            forall|j: int| 0 <= j < out@.len() ==> out@[j] == s@[s@.len() - 1 - j],
        decreases i,
    {
        i = i - 1;
        out.push(s[i]);
    }
    out
}

/// The session key that the recipient recovers from the sender's public
/// point, the length octet and the wrapped key: the shared secret of the
/// recipient's scalar, read least significant octet first, and the point
/// behind its prefix gives the key-encrypting key; the wrapped key is
/// moved to the right end of a field of the stated length, unwrapped, and
/// its padding taken off.
pub open spec fn decrypt_spec(
    oid: Seq<u8>,
    alg_sym: SymmetricKeyAlgorithm,
    hash: HashAlgorithm,
    secret: Seq<u8>,
    point: Seq<u8>,
    length: Seq<u8>,
    wrapped: Seq<u8>,
    fingerprint: Seq<u8>,
) -> Result<Seq<u8>, Error> {
    if point.len() != 33 || secret.len() != 32 {
        Err(Error::InvalidInput)
    } else {
        let shared = x25519_shared_of(secret.reverse(), point.subrange(1, 33));
        let param = ecdh_param(oid, alg_sym, hash, fingerprint);
        match kdf_spec(hash, shared, alg_sym.spec_key_size(), param) {
            Err(e) => Err(e),
            Ok(z) => {
                let width: nat = if length.len() > 0 {
                    length[0] as nat
                } else {
                    0
                };
                if wrapped.len() > width {
                    Err(Error::InvalidInput)
                } else {
                    match aes_kw::unwrap_spec(z, right_aligned(wrapped, width)) {
                        Err(e) => Err(e),
                        Ok(key) => unpad_spec(key),
                    }
                }
            },
        }
    }
}

/// The session key that the recipient recovers from the integers of an
/// encrypted session-key packet, of which there must be three.
pub open spec fn decrypt_mpis_spec(
    priv_key: ECDHSecretKey,
    mpis: Seq<Mpi>,
    fingerprint: Seq<u8>,
) -> Result<Seq<u8>, Error> {
    if mpis.len() != 3 {
        Err(Error::InvalidInput)
    } else {
        decrypt_spec(
            priv_key.oid@,
            priv_key.alg_sym,
            priv_key.hash,
            priv_key.secret@,
            mpis[0]@,
            mpis[1]@,
            mpis[2]@,
            fingerprint,
        )
    }
}

/// Recovers a session key from the three integers of an encrypted
/// session-key packet. Fails with `InvalidInput` unless there are three
/// integers, the first of 33 octets, the secret scalar has 32 octets, and
/// the wrapped key is no longer than the second integer states.
pub fn decrypt(priv_key: &ECDHSecretKey, mpis: &[Mpi], fingerprint: &[u8]) -> (out: Result<
    Vec<u8>,
    Error,
>)
    ensures
        bytes_result(out) == decrypt_mpis_spec(*priv_key, mpis@, fingerprint@),
{
    let param = build_ecdh_param(
        priv_key.oid.as_slice(),
        priv_key.alg_sym,
        priv_key.hash,
        fingerprint,
    );
    if mpis.len() != 3 {
        return Err(Error::InvalidInput);
    }
    if mpis[0].len() != 33 {
        return Err(Error::InvalidInput);
    }
    if priv_key.secret.len() != 32 {
        return Err(Error::InvalidInput);
    }
    let encrypted_session_key = mpis[2].as_bytes();
    let their_public = array_from::<32>(mpis[0].as_bytes(), 1);
    let mut private_key_le = reversed(priv_key.secret.as_slice());
    let our_secret = array_from::<32>(private_key_le.as_slice(), 0);
    assert(our_secret@ =~= priv_key.secret@.reverse());
    wipe(&mut private_key_le);
    let shared = shared_secret(our_secret, their_public);
    let z = match kdf(priv_key.hash, &shared, priv_key.alg_sym.key_size(), param.as_slice()) {
        Ok(z) => z,
        Err(e) => {
            return Err(e);
        },
    };
    let encrypted_key_len: usize = match mpis[1].first() {
        Some(l) => l as usize,
        None => 0,
    };
    if encrypted_session_key.len() > encrypted_key_len {
        return Err(Error::InvalidInput);
    }
    let fill: usize = encrypted_key_len - encrypted_session_key.len();
    let mut buf: Vec<u8> = vec![0u8; fill];
    buf.extend_from_slice(encrypted_session_key);
    assert(buf@ =~= right_aligned(mpis@[2]@, encrypted_key_len as nat));
    match aes_kw::unwrap(z.as_slice(), buf.as_slice()) {
        Ok(key) => unpad(key),
        Err(e) => Err(e),
    }
}

/// Whether a session key can be wrapped for a recipient at all: the text
/// must have fewer than 239 octets, the curve must be Curve25519, and the
/// recipient's point must have 33 octets, the first of them 0x40.
pub open spec fn encrypt_input_spec(curve: ECCCurve, q: Seq<u8>, plain: Seq<u8>) -> Result<
    (),
    Error,
> {
    if plain.len() >= 239 {
        Err(Error::InvalidInput)
    } else if curve != ECCCurve::Curve25519 {
        Err(Error::Unsupported)
    } else if q.len() != 33 {
        Err(Error::InvalidInput)
    } else if q[0] != 0x40 {
        Err(Error::InvalidInput)
    } else {
        Ok(())
    }
}

/// Holds the text, the curve and the recipient's point against what
/// `encrypt` takes, before a one-time secret is drawn for them.
pub fn check_encrypt_input(curve: &ECCCurve, q: &[u8], plain: &[u8]) -> (out: Result<(), Error>)
    ensures
        out == encrypt_input_spec(*curve, q@, plain@),
{
    if plain.len() >= 239 {
        return Err(Error::InvalidInput);
    }
    if !curve.is_curve25519() {
        return Err(Error::Unsupported);
    }
    if q.len() != 33 {
        return Err(Error::InvalidInput);
    }
    if q[0] != 0x40 {
        return Err(Error::InvalidInput);
    }
    Ok(())
}

/// The text with its padding has the length of the next multiple of 8
/// above the length of the text.
pub proof fn lemma_padded_len(plain: Seq<u8>)
    ensures
        padded(plain).len() == 8 * (plain.len() / 8 + 1),
        padded(plain).len() % 8 == 0,
        plain.len() < 239 ==> padded(plain).len() + 8 <= 248,
{
}

/// A text of fewer than 239 octets can be wrapped for every key that
/// `generate_key` makes: its point has 33 octets behind the octet 0x40,
/// and SHA-256 gives a key of the 16 octets that AES-128 takes.
pub proof fn lemma_generated_key_is_accepted(q: Seq<u8>, plain: Seq<u8>)
    requires
        q.len() == 33,
        q[0] == 0x40,
        plain.len() < 239,
    ensures
        encrypt_input_spec(ECCCurve::Curve25519, q, plain) is Ok,
        HashAlgorithm::SHA2_256.spec_digest_size() > 0,
        aes_kw::is_aes_key_len(
            derived_key_len(HashAlgorithm::SHA2_256, SymmetricKeyAlgorithm::AES128.spec_key_size()),
        ),
{
}

/// What the sender puts into an encrypted session-key packet for the
/// recipient's point `q`: the sender's own public point behind the octet
/// 0x40, the length of the wrapped key in one octet, and the padded
/// session key, wrapped under the key derived from the shared secret.
pub open spec fn encrypt_spec(
    ephemeral: Seq<u8>,
    curve: ECCCurve,
    alg_sym: SymmetricKeyAlgorithm,
    hash: HashAlgorithm,
    fingerprint: Seq<u8>,
    q: Seq<u8>,
    plain: Seq<u8>,
) -> Result<(Seq<u8>, Seq<u8>, Seq<u8>), Error> {
    match encrypt_input_spec(curve, q, plain) {
        Err(e) => Err(e),
        Ok(()) => {
            let shared = x25519_shared_of(ephemeral, q.subrange(1, 33));
            let param = ecdh_param(curve.spec_oid(), alg_sym, hash, fingerprint);
            match kdf_spec(hash, shared, alg_sym.spec_key_size(), param) {
                Err(e) => Err(e),
                Ok(z) => match aes_kw::wrap_spec(z, padded(plain)) {
                    Err(e) => Err(e),
                    Ok(wrapped) => Ok(
                        (
                            seq![0x40u8] + x25519_public_of(ephemeral),
                            seq![(padded(plain).len() + 8) as u8],
                            wrapped,
                        ),
                    ),
                },
            }
        },
    }
}

/// Wraps the session key `plain` for the holder of the public point `q`,
/// with `ephemeral` as the sender's one-time secret. Fails with
/// `InvalidInput` where `plain` has 239 octets or more or `q` is not 33
/// octets that start with 0x40, and with `Unsupported` for a curve other
/// than Curve25519. With these in order it succeeds exactly where the
/// hash has a digest and the derived key has a length that AES takes.
///
/// The first string of the result has 33 octets, the second is the
/// length of the third in one octet, and the third is 8 octets longer
/// than the padded text.
pub fn encrypt(
    ephemeral: [u8; 32],
    curve: &ECCCurve,
    alg_sym: SymmetricKeyAlgorithm,
    hash: HashAlgorithm,
    fingerprint: &[u8],
    q: &[u8],
    plain: &[u8],
) -> (out: Result<Vec<Vec<u8>>, Error>)
    ensures
        match out {
            Ok(v) => v@.len() == 3 && encrypt_spec(
                ephemeral@,
                *curve,
                alg_sym,
                hash,
                fingerprint@,
                q@,
                plain@,
            ) == Ok::<(Seq<u8>, Seq<u8>, Seq<u8>), Error>((v@[0]@, v@[1]@, v@[2]@)),
            Err(e) => encrypt_spec(ephemeral@, *curve, alg_sym, hash, fingerprint@, q@, plain@)
                == Err::<(Seq<u8>, Seq<u8>, Seq<u8>), Error>(e),
        },
        out matches Ok(v) ==> v@[0]@.len() == 33 && v@[0]@[0] == 0x40 && v@[1]@.len() == 1
            && v@[1]@[0] == v@[2]@.len() && v@[2]@.len() == padded(plain@).len() + 8
            && v@[2]@.len() == 8 * (plain@.len() / 8 + 1) + 8 && v@[2]@.len() <= 248,
        out is Ok <==> encrypt_input_spec(*curve, q@, plain@) is Ok && hash.spec_digest_size() > 0
            && aes_kw::is_aes_key_len(derived_key_len(hash, alg_sym.spec_key_size())),
{
    match check_encrypt_input(curve, q, plain) {
        Ok(()) => {},
        Err(e) => {
            return Err(e);
        },
    }
    let oid = curve.oid();
    let param = build_ecdh_param(oid.as_slice(), alg_sym, hash, fingerprint);
    let their_public = array_from::<32>(q, 1);
    let shared = shared_secret(ephemeral, their_public);
    let z = match kdf(hash, &shared, alg_sym.key_size(), param.as_slice()) {
        Ok(z) => z,
        Err(e) => {
            return Err(e);
        },
    };
    let plain_padded = pad(plain);
    let encrypted_key = match aes_kw::wrap(z.as_slice(), plain_padded.as_slice()) {
        Ok(k) => k,
        Err(e) => {
            return Err(e);
        },
    };
    let our_public = public_point(&ephemeral);
    let mut encoded_public: Vec<u8> = Vec::new();
    encoded_public.push(0x40);
    encoded_public.extend_from_slice(our_public.as_slice());
    assert(encoded_public@ =~= seq![0x40u8] + x25519_public_of(ephemeral@));
    let encrypted_key_len: Vec<u8> = vec![encrypted_key.len() as u8];
    assert(encrypted_key_len@ =~= seq![(padded(plain@).len() + 8) as u8]);
    let mut out: Vec<Vec<u8>> = Vec::new();
    out.push(encoded_public);
    out.push(encrypted_key_len);
    out.push(encrypted_key);
    Ok(out)
}

/// A scalar made fit for Curve25519: the three lowest bits and the highest
/// bit cleared, the second highest set.
pub open spec fn clamped(s: Seq<u8>) -> Seq<u8>
    recommends
        s.len() == 32,
{
    s.update(0, s[0] & 0xf8).update(31, (s[31] & 0x7f) | 0x40)
}

/// Trusted: `clamp_integer` clears the three lowest bits of the first
/// octet and the highest bit of the last, sets the second highest bit of
/// the last, and leaves the other octets.
pub assume_specification[ curve25519_dalek::scalar::clamp_integer ](bytes: [u8; 32]) -> (out: [
    u8;
    32
])
    ensures
        out@ == clamped(bytes@),
;

/// Makes an ECDH key pair on Curve25519 from 32 secret octets: the public
/// point behind the octet 0x40, and the clamped scalar, most significant
/// octet first. The key derivation uses SHA-256 and AES-128.
pub fn generate_key(secret: [u8; 32]) -> (out: (PublicParams, PlainSecretParams))
    ensures
        out.0 matches PublicParams::ECDH(public) && public.curve == ECCCurve::Curve25519
            && public.p@ == seq![0x40u8] + x25519_public_of(secret@) && public.p@.len() == 33
            && public.p@[0] == 0x40 && public.hash == HashAlgorithm::SHA2_256 && public.alg_sym
            == SymmetricKeyAlgorithm::AES128,
        out.1 matches PlainSecretParams::ECDH(scalar) && scalar@ == clamped(secret@).reverse()
            && scalar@.len() == 32,
{
    let p_raw = public_point(&secret);
    let mut p: Vec<u8> = Vec::new();
    p.push(0x40);
    p.extend_from_slice(p_raw.as_slice());
    let q_raw = curve25519_dalek::scalar::clamp_integer(secret);
    let q = reversed(q_raw.as_slice());
    proof {
        let top = secret@[31];
        assert((top & 0x7f) | 0x40 != 0) by (bit_vector);
    }
    let hash = HashAlgorithm::SHA2_256;
    let alg_sym = SymmetricKeyAlgorithm::AES128;
    (
        PublicParams::ECDH(
            ECDHPublicParams { curve: ECCCurve::Curve25519, p: Mpi::from_raw(p), hash, alg_sym },
        ),
        PlainSecretParams::ECDH(Mpi::from_raw(q)),
    )
}

/// The recipient recovers the session key that the sender wrapped, also
/// where the integers have lost leading zero octets on the way, provided
/// that the primitives behave as key agreement and key wrap should: public
/// points have 32 octets, both sides arrive at the same shared secret, a
/// wrapped key is 8 octets longer than the key, and unwrapping undoes
/// wrapping.
pub proof fn lemma_decrypt_recovers_plain(
    secret: Seq<u8>,
    ephemeral: Seq<u8>,
    alg_sym: SymmetricKeyAlgorithm,
    hash: HashAlgorithm,
    fingerprint: Seq<u8>,
    plain: Seq<u8>,
)
    requires
        secret.len() == 32,
        ephemeral.len() == 32,
        1 <= plain.len() < 239,
        x25519_public_of(secret).len() == 32,
        x25519_public_of(ephemeral).len() == 32,
        x25519_shared_of(clamped(secret), x25519_public_of(ephemeral)) == x25519_shared_of(
            ephemeral,
            x25519_public_of(secret),
        ),
        forall|z: Seq<u8>| #[trigger]
            aes_kw::kw_wrap_of(z, padded(plain)).len() == padded(plain).len() + 8,
        forall|z: Seq<u8>|
            aes_kw::kw_unwrap_of(z, #[trigger] aes_kw::kw_wrap_of(z, padded(plain))) == Some(
                padded(plain),
            ),
    ensures
        encrypt_spec(
            ephemeral,
            ECCCurve::Curve25519,
            alg_sym,
            hash,
            fingerprint,
            seq![0x40u8] + x25519_public_of(secret),
            plain,
        ) matches Ok((point, length, wrapped)) ==> decrypt_spec(
            ECCCurve::Curve25519.spec_oid(),
            alg_sym,
            hash,
            clamped(secret).reverse(),
            strip_leading_zeros(point),
            strip_leading_zeros(length),
            strip_leading_zeros(wrapped),
            fingerprint,
        ) == Ok::<Seq<u8>, Error>(plain),
{
    let q = seq![0x40u8] + x25519_public_of(secret);
    let sent = encrypt_spec(ephemeral, ECCCurve::Curve25519, alg_sym, hash, fingerprint, q, plain);
    if let Ok((point, length, wrapped)) = sent {
        assert(q.subrange(1, 33) =~= x25519_public_of(secret));
        lemma_unpad_of_padded(plain);
        assert(point.subrange(1, 33) =~= x25519_public_of(ephemeral));
        assert(clamped(secret).reverse().reverse() =~= clamped(secret));
        lemma_right_align_restores(wrapped);
    }
}

} // verus!

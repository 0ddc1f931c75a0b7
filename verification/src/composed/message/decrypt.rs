//! Recovery of session keys and the decryption of the packets that they
//! protect.

use vstd::prelude::*;
use vstd::slice::{slice_subrange, slice_to_vec};
use vstd::utf8::encode_utf8;
use crate::composed::message::types::{Edata, Tag};
use crate::crypto::checksum;
use crate::crypto::checksum::checksum_bytes;
use crate::crypto::ecdh;
use crate::crypto::rsa_pkcs1;
use crate::crypto::sym::{SymmetricKeyAlgorithm, zeros};
use crate::errors::Error;
use crate::packet::sym_key_encrypted_session_key::SymKeyEncryptedSessionKey;
use crate::types::mpi::Mpi;
use crate::types::params::SecretKeyRepr;

verus! {

/// A session key and the cipher it is for, over the key's octets.
pub open spec fn key_result(out: Result<(Vec<u8>, SymmetricKeyAlgorithm), Error>) -> Result<
    (Seq<u8>, SymmetricKeyAlgorithm),
    Error,
> {
    match out {
        Ok((key, alg)) => Ok((key@, alg)),
        Err(e) => Err(e),
    }
}

/// The session key in a decrypted blob. The first octet names the cipher,
/// which must not be the marker for unencrypted data. From an ECDH key the
/// session key is all that stands between that octet and the last two;
/// otherwise it has the key length of the cipher, and two more octets
/// follow it. Those two octets must be the checksum of the session key.
pub open spec fn session_key_spec(decrypted: Seq<u8>, ecdh: bool) -> Result<
    (Seq<u8>, SymmetricKeyAlgorithm),
    Error,
> {
    if decrypted.len() == 0 {
        Err(Error::InvalidInput)
    } else {
        let alg = SymmetricKeyAlgorithm::of_id(decrypted[0]);
        let end: int = if ecdh {
            decrypted.len() - 2
        } else {
            alg.spec_key_size() as int + 1
        };
        if alg == SymmetricKeyAlgorithm::Plaintext {
            Err(Error::PlaintextSessionKey)
        } else if end < 1 || decrypted.len() < end + 2 {
            Err(Error::InvalidInput)
        } else if decrypted.subrange(end, end + 2) != checksum_bytes(decrypted.subrange(1, end)) {
            Err(Error::ChecksumMismatch)
        } else {
            Ok((decrypted.subrange(1, end), alg))
        }
    }
}

/// Reads the session key and its cipher out of a decrypted blob and holds
/// the key against its checksum; `ecdh` says whether the blob came from an
/// ECDH key.
pub fn read_session_key(decrypted: &[u8], ecdh: bool) -> (out: Result<
    (Vec<u8>, SymmetricKeyAlgorithm),
    Error,
>)
    ensures
        key_result(out) == session_key_spec(decrypted@, ecdh),
{
    let len = decrypted.len();
    if len == 0 {
        return Err(Error::InvalidInput);
    }
    let session_key_algorithm = SymmetricKeyAlgorithm::from(decrypted[0]);
    if session_key_algorithm.is_plaintext() {
        return Err(Error::PlaintextSessionKey);
    }
    let end: usize = if ecdh {
        if len < 3 {
            return Err(Error::InvalidInput);
        }
        len - 2
    } else {
        let key_size = session_key_algorithm.key_size();
        if len < key_size + 3 {
            return Err(Error::InvalidInput);
        }
        key_size + 1
    };
    let k = slice_subrange(decrypted, 1, end);
    let sum = slice_subrange(decrypted, end, end + 2);
    let key = slice_to_vec(k);
    assert(sum@.take(2) =~= sum@);
    match checksum::simple(sum, k) {
        Ok(()) => Ok((key, session_key_algorithm)),
        Err(e) => Err(e),
    }
}

/// What recovery gives for an unlocked key: RSA and ECDH decrypt and
/// the session key is read from what comes out, DSA and ECDSA keys only
/// sign, and EdDSA is not supported. A failure of the decryption is the
/// result.
pub open spec fn decrypt_session_key_spec(
    priv_key: SecretKeyRepr,
    fingerprint: Seq<u8>,
    mpis: Seq<Mpi>,
) -> Result<(Seq<u8>, SymmetricKeyAlgorithm), Error> {
    match priv_key {
        SecretKeyRepr::RSA(key) => match rsa_pkcs1::decrypt_spec(key, mpis) {
            Ok(decrypted) => session_key_spec(decrypted, false),
            Err(e) => Err(e),
        },
        SecretKeyRepr::ECDH(key) => match ecdh::decrypt_mpis_spec(key, mpis, fingerprint) {
            Ok(decrypted) => session_key_spec(decrypted, true),
            Err(e) => Err(e),
        },
        SecretKeyRepr::EdDSA(_) => Err(Error::Unimplemented),
        _ => Err(Error::SigningOnlyKey),
    }
}

/// Decrypts the session key of a message with an unlocked secret key.
pub fn decrypt_session_key(priv_key: &SecretKeyRepr, fingerprint: &[u8], mpis: &[Mpi]) -> (out:
    Result<(Vec<u8>, SymmetricKeyAlgorithm), Error>)
    ensures
        key_result(out) == decrypt_session_key_spec(*priv_key, fingerprint@, mpis@),
{
    match priv_key {
        SecretKeyRepr::RSA(key) => {
            match rsa_pkcs1::decrypt(key, mpis, fingerprint) {
                Ok(decrypted) => read_session_key(decrypted.as_slice(), false),
                Err(e) => Err(e),
            }
        },
        SecretKeyRepr::DSA(_) => Err(Error::SigningOnlyKey),
        SecretKeyRepr::ECDSA(_) => Err(Error::SigningOnlyKey),
        SecretKeyRepr::ECDH(key) => {
            match ecdh::decrypt(key, mpis, fingerprint) {
                Ok(decrypted) => read_session_key(decrypted.as_slice(), true),
                Err(e) => Err(e),
            }
        },
        SecretKeyRepr::EdDSA(_) => Err(Error::Unimplemented),
    }
}

/// The session key that a passphrase opens. The cipher of the packet must
/// not be the marker for unencrypted data. The passphrase gives a key of
/// that cipher's length. Where the packet holds no encrypted key, this is
/// the session key. Otherwise the encrypted key is decrypted in
/// cipher-feedback mode from an all-zero initialization vector; its first
/// octet names the cipher of the session key, which again must not be
/// the marker, and the rest is the session key. An encrypted key
/// without octets is refused.
pub open spec fn with_password_spec(
    packet: SymKeyEncryptedSessionKey,
    password: Seq<u8>,
) -> Result<(Seq<u8>, SymmetricKeyAlgorithm), Error> {
    let alg = packet.sym_algorithm;
    if alg == SymmetricKeyAlgorithm::Plaintext {
        Err(Error::PlaintextSessionKey)
    } else {
        match packet.s2k.derive_key_spec(password, alg.spec_key_size()) {
            Err(e) => Err(e),
            Ok(key) => match packet.encrypted_key {
                None => Ok((key, alg)),
                Some(encrypted) => match alg.cfb_spec(
                    key,
                    zeros(alg.spec_block_size()),
                    encrypted@,
                ) {
                    Err(e) => Err(e),
                    Ok(decrypted) => if encrypted@.len() == 0 {
                        Err(Error::InvalidInput)
                    } else if decrypted[0] == 0 {
                        Err(Error::PlaintextSessionKey)
                    } else {
                        Ok(
                            (
                                decrypted.subrange(1, encrypted@.len() as int),
                                SymmetricKeyAlgorithm::of_id(decrypted[0]),
                            ),
                        )
                    },
                },
            },
        }
    }
}

/// How long the session key is that a packet yields: one octet shorter
/// than the encrypted key, or as long as the key of the packet's cipher
/// where there is no encrypted key.
pub open spec fn session_key_len(packet: SymKeyEncryptedSessionKey) -> int {
    match packet.encrypted_key {
        Some(encrypted) => encrypted@.len() - 1,
        None => packet.sym_algorithm.spec_key_size() as int,
    }
}

/// Opens the session key of a packet with the octets of a passphrase.
pub fn session_key_from_password(packet: &SymKeyEncryptedSessionKey, password: &[u8]) -> (out:
    Result<(Vec<u8>, SymmetricKeyAlgorithm), Error>)
    requires
        password@.len() + 8 <= usize::MAX,
    ensures
        key_result(out) == with_password_spec(*packet, password@),
        out matches Ok((key, alg)) ==> key@.len() == session_key_len(*packet) && alg
            != SymmetricKeyAlgorithm::Plaintext,
        packet.encrypted_key matches Some(encrypted) && encrypted@.len() == 0 ==> out is Err,
{
    let packet_algorithm = packet.sym_algorithm();
    if packet_algorithm.is_plaintext() {
        return Err(Error::PlaintextSessionKey);
    }
    let key = match packet.s2k().derive_key(password, packet_algorithm.key_size()) {
        Ok(k) => k,
        Err(e) => {
            return Err(e);
        },
    };
    match packet.encrypted_key() {
        None => Ok((key, packet_algorithm)),
        Some(encrypted_key) => {
            let iv: Vec<u8> = vec![0u8; packet_algorithm.block_size()];
            assert(iv@ =~= zeros(packet_algorithm.spec_block_size()));
            let decrypted_key = match packet_algorithm.decrypt_with_iv_regular(
                key.as_slice(),
                iv.as_slice(),
                encrypted_key.as_slice(),
            ) {
                Ok(d) => d,
                Err(e) => {
                    return Err(e);
                },
            };
            if encrypted_key.len() == 0 {
                return Err(Error::InvalidInput);
            }
            let session_key_algorithm = SymmetricKeyAlgorithm::from(decrypted_key[0]);
            if session_key_algorithm.is_plaintext() {
                return Err(Error::PlaintextSessionKey);
            }
            let rest = slice_subrange(decrypted_key.as_slice(), 1, decrypted_key.len());
            Ok((slice_to_vec(rest), session_key_algorithm))
        },
    }
}

/// Decrypts the session key of a packet with a passphrase, which
/// `msg_pw` hands over when it is asked; it is not asked where the packet
/// names the marker for unencrypted data as its cipher. The result is
/// what `session_key_from_password` gives for the octets of that
/// passphrase.
pub fn decrypt_session_key_with_password<F>(packet: &SymKeyEncryptedSessionKey, msg_pw: F) -> (out:
    Result<(Vec<u8>, SymmetricKeyAlgorithm), Error>) where F: FnOnce() -> String
    requires
        msg_pw.requires(()),
    ensures
        packet.sym_algorithm == SymmetricKeyAlgorithm::Plaintext ==> key_result(out) == Err::<
            (Seq<u8>, SymmetricKeyAlgorithm),
            Error,
        >(Error::PlaintextSessionKey),
        packet.sym_algorithm != SymmetricKeyAlgorithm::Plaintext ==> exists|pw: String|
            #![trigger msg_pw.ensures((), pw)]
            msg_pw.ensures((), pw) && key_result(out) == (if encode_utf8(pw@).len() + 8
                > usize::MAX {
                Err(Error::InvalidInput)
            } else {
                with_password_spec(*packet, encode_utf8(pw@))
            }),
        out matches Ok((key, alg)) ==> key@.len() == session_key_len(*packet) && alg
            != SymmetricKeyAlgorithm::Plaintext,
        packet.encrypted_key matches Some(encrypted) && encrypted@.len() == 0 ==> out is Err,
{
    if packet.sym_algorithm().is_plaintext() {
        return Err(Error::PlaintextSessionKey);
    }
    let pw = msg_pw();
    let bytes = pw.as_str().as_bytes();
    if bytes.len() > usize::MAX - 8 {
        return Err(Error::InvalidInput);
    }
    session_key_from_password(packet, bytes)
}

/// What the decrypter asks of its caller next.
#[derive(Debug)]
pub enum Step {
    /// Every packet has been tried and none is open.
    Done,
    /// A packet is open: its messages are the caller's to hand out.
    Delegate,
    /// A packet was decrypted: these octets are to be parsed as messages
    /// and handed out from now on.
    Parse(Vec<u8>),
    /// A packet could not be decrypted; the next one is tried next.
    Failed(Error),
}

/// Walks the encrypted data packets of a message with its session key.
#[derive(Debug)]
pub struct MessageDecrypter<'a> {
    key: Vec<u8>,
    alg: SymmetricKeyAlgorithm,
    edata: &'a [Edata],
    pos: usize,
    producing: bool,
}

/// The content of an encrypted data packet under a session key, by the
/// kind of the packet.
pub open spec fn packet_spec(alg: SymmetricKeyAlgorithm, key: Seq<u8>, packet: Edata) -> Result<
    Seq<u8>,
    Error,
> {
    if packet.spec_tag() == Tag::SymEncryptedProtectedData {
        alg.protected_spec(key, packet.spec_data())
    } else {
        alg.unprotected_spec(key, packet.spec_data())
    }
}

impl<'a> MessageDecrypter<'a> {
    /// The session key.
    pub closed spec fn spec_key(&self) -> Seq<u8> {
        self.key@
    }

    /// The cipher of the session key.
    pub closed spec fn spec_alg(&self) -> SymmetricKeyAlgorithm {
        self.alg
    }

    /// The packets to decrypt.
    pub closed spec fn spec_edata(&self) -> Seq<Edata> {
        self.edata@
    }

    /// The index of the packet that is tried next.
    pub closed spec fn spec_pos(&self) -> nat {
        self.pos as nat
    }

    /// Whether a packet is open.
    pub closed spec fn spec_producing(&self) -> bool {
        self.producing
    }

    /// Starts in front of the first packet, with none open.
    pub fn new(session_key: Vec<u8>, alg: SymmetricKeyAlgorithm, edata: &'a [Edata]) -> (out: Self)
        ensures
            out.spec_key() == session_key@,
            out.spec_alg() == alg,
            out.spec_edata() == edata@,
            out.spec_pos() == 0,
            !out.spec_producing(),
    {
        MessageDecrypter { key: session_key, alg, edata, pos: 0, producing: false }
    }

    /// The index of the packet that is tried next.
    pub fn pos(&self) -> (pos: usize)
        ensures
            pos == self.spec_pos(),
    {
        self.pos
    }

    /// Whether a packet is open.
    pub fn is_producing(&self) -> (b: bool)
        ensures
            b == self.spec_producing(),
    {
        self.producing
    }

    /// Takes the next step. While a packet is open, nothing changes and
    /// the caller is to go on with its messages. Otherwise the next packet
    /// is decrypted and the position moves behind it, whether or not that
    /// succeeds: a success opens the packet, a failure is reported and
    /// leaves the rest untouched. With no packet left, nothing changes.
    pub fn next(&mut self) -> (step: Step)
        ensures
            final(self).spec_key() == old(self).spec_key(),
            final(self).spec_alg() == old(self).spec_alg(),
            final(self).spec_edata() == old(self).spec_edata(),
            old(self).spec_producing() ==> step is Delegate && final(self).spec_producing()
                && final(self).spec_pos() == old(self).spec_pos(),
            !old(self).spec_producing() && old(self).spec_pos() >= old(self).spec_edata().len()
                ==> step is Done && !final(self).spec_producing() && final(self).spec_pos() == old(self).spec_pos(),
            !old(self).spec_producing() && old(self).spec_pos() < old(self).spec_edata().len()
                ==> final(self).spec_pos() == old(self).spec_pos() + 1 && (match packet_spec(
                old(self).spec_alg(),
                old(self).spec_key(),
                old(self).spec_edata()[old(self).spec_pos() as int],
            ) {
                Ok(plain) => step matches Step::Parse(v) && v@ == plain && final(self).spec_producing(),
                Err(e) => step == Step::Failed(e) && !final(self).spec_producing(),
            }),
    {
        if self.producing {
            return Step::Delegate;
        }
        if self.pos >= self.edata.len() {
            return Step::Done;
        }
        let packet = &self.edata[self.pos];
        self.pos = self.pos + 1;
        let protected = match packet.tag() {
            Tag::SymEncryptedProtectedData => true,
            Tag::SymEncryptedData => false,
        };
        let decrypted = if protected {
            self.alg.decrypt_protected(self.key.as_slice(), packet.data())
        } else {
            self.alg.decrypt(self.key.as_slice(), packet.data())
        };
        match decrypted {
            Ok(plain) => {
                self.producing = true;
                Step::Parse(plain)
            },
            Err(e) => Step::Failed(e),
        }
    }
}

/// A blob made of a cipher's octet, a key and the key's checksum holds
/// that key, as long as the octet does not mark unencrypted data and, for
/// a key that is not from ECDH, the key has the length that the cipher
/// takes.
pub proof fn lemma_session_key_round_trip(id: u8, key: Seq<u8>, ecdh: bool)
    requires
        id != 0,
        !ecdh ==> key.len() == SymmetricKeyAlgorithm::of_id(id).spec_key_size(),
    ensures
        session_key_spec(seq![id] + key + checksum_bytes(key), ecdh) == Ok::<
            (Seq<u8>, SymmetricKeyAlgorithm),
            Error,
        >((key, SymmetricKeyAlgorithm::of_id(id))),
{
    let blob = seq![id] + key + checksum_bytes(key);
    let end: int = key.len() as int + 1;
    assert(blob.subrange(1, end) =~= key);
    assert(blob.subrange(end, end + 2) =~= checksum_bytes(key));
}

/// A blob whose first octet is 0 never yields a session key.
pub proof fn lemma_plaintext_rejected(decrypted: Seq<u8>, ecdh: bool)
    requires
        decrypted.len() > 0,
        decrypted[0] == 0,
    ensures
        session_key_spec(decrypted, ecdh) == Err::<(Seq<u8>, SymmetricKeyAlgorithm), Error>(
            Error::PlaintextSessionKey,
        ),
{
}

} // verus!

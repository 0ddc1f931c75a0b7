//! Signatures and their subpackets, as values and as the mathematical
//! records that the parser is specified over.

use vstd::prelude::*;
use crate::crypto::hash::HashAlgorithm;
use crate::crypto::sym::SymmetricKeyAlgorithm;
use crate::packet::ids::{
    CompressionAlgorithm,
    PublicKeyAlgorithm,
    RevocationCode,
    SignatureType,
    SignatureVersion,
};

verus! {

/// A key that may revoke the signed key.
#[derive(Debug, Clone, Copy)]
pub struct RevocationKey {
    pub class: u8,
    pub algorithm: PublicKeyAlgorithm,
    pub fingerprint: [u8; 20],
}

/// A revocation key over plain sequences.
pub struct RevocationKeyModel {
    pub class: u8,
    pub algorithm: PublicKeyAlgorithm,
    pub fingerprint: Seq<u8>,
}

/// One subpacket of a signature. Times are seconds: a creation time
/// counts from the epoch, an expiration time from the creation.
#[derive(Debug)]
pub enum Subpacket {
    SignatureCreationTime(u32),
    SignatureExpirationTime(u32),
    KeyExpirationTime(u32),
    Issuer([u8; 8]),
    PreferredSymmetricAlgorithms(Vec<SymmetricKeyAlgorithm>),
    PreferredHashAlgorithms(Vec<HashAlgorithm>),
    PreferredCompressionAlgorithms(Vec<CompressionAlgorithm>),
    KeyServerPreferences(Vec<u8>),
    KeyFlags(Vec<u8>),
    Features(Vec<u8>),
    RevocationReason(RevocationCode, Vec<u8>),
    IsPrimary(bool),
    Revocable(bool),
    EmbeddedSignature(Box<Signature>),
    PreferredKeyServer(String),
    Notation(String, String),
    RevocationKey(u8, PublicKeyAlgorithm, [u8; 20]),
    SignersUserID(String),
}

/// A signature packet, with what its hashed subpackets say gathered
/// field by field and its unhashed subpackets as they came.
#[derive(Debug)]
pub struct Signature {
    pub version: SignatureVersion,
    pub typ: SignatureType,
    pub pub_alg: PublicKeyAlgorithm,
    pub hash_alg: HashAlgorithm,
    pub created: Option<u32>,
    pub issuer: Option<[u8; 8]>,
    pub preferred_symmetric_algs: Vec<SymmetricKeyAlgorithm>,
    pub preferred_hash_algs: Vec<HashAlgorithm>,
    pub preferred_compression_algs: Vec<CompressionAlgorithm>,
    pub key_server_prefs: Vec<u8>,
    pub key_flags: Vec<u8>,
    pub features: Vec<u8>,
    pub key_expiration_time: Option<u32>,
    pub signature_expiration_time: Option<u32>,
    pub is_primary: bool,
    pub is_revocable: bool,
    pub revocation_reason_code: Option<RevocationCode>,
    pub revocation_reason_string: Option<String>,
    pub revocation_key: Option<RevocationKey>,
    /// Names and their values; no name occurs twice.
    pub notations: Vec<(String, String)>,
    pub embedded_signature: Option<Box<Signature>>,
    pub preferred_key_server: Option<String>,
    pub signers_userid: Option<String>,
    pub unhashed_subpackets: Vec<Subpacket>,
}

/// A subpacket over plain sequences.
pub enum SubpacketModel {
    SignatureCreationTime(u32),
    SignatureExpirationTime(u32),
    KeyExpirationTime(u32),
    Issuer(Seq<u8>),
    PreferredSymmetricAlgorithms(Seq<SymmetricKeyAlgorithm>),
    PreferredHashAlgorithms(Seq<HashAlgorithm>),
    PreferredCompressionAlgorithms(Seq<CompressionAlgorithm>),
    KeyServerPreferences(Seq<u8>),
    KeyFlags(Seq<u8>),
    Features(Seq<u8>),
    RevocationReason(RevocationCode, Seq<u8>),
    IsPrimary(bool),
    Revocable(bool),
    EmbeddedSignature(Box<SignatureModel>),
    PreferredKeyServer(Seq<char>),
    Notation(Seq<char>, Seq<char>),
    RevocationKey(u8, PublicKeyAlgorithm, Seq<u8>),
    SignersUserID(Seq<char>),
}

/// A signature over plain sequences.
pub struct SignatureModel {
    pub version: SignatureVersion,
    pub typ: SignatureType,
    pub pub_alg: PublicKeyAlgorithm,
    pub hash_alg: HashAlgorithm,
    pub created: Option<u32>,
    pub issuer: Option<Seq<u8>>,
    pub preferred_symmetric_algs: Seq<SymmetricKeyAlgorithm>,
    pub preferred_hash_algs: Seq<HashAlgorithm>,
    pub preferred_compression_algs: Seq<CompressionAlgorithm>,
    pub key_server_prefs: Seq<u8>,
    pub key_flags: Seq<u8>,
    pub features: Seq<u8>,
    pub key_expiration_time: Option<u32>,
    pub signature_expiration_time: Option<u32>,
    pub is_primary: bool,
    pub is_revocable: bool,
    pub revocation_reason_code: Option<RevocationCode>,
    pub revocation_reason_string: Option<Seq<char>>,
    pub revocation_key: Option<RevocationKeyModel>,
    pub notations: Seq<(Seq<char>, Seq<char>)>,
    pub embedded_signature: Option<Box<SignatureModel>>,
    pub preferred_key_server: Option<Seq<char>>,
    pub signers_userid: Option<Seq<char>>,
    pub unhashed_subpackets: Seq<SubpacketModel>,
}

/// The names and values of a list of notations.
pub open spec fn notations_model(v: Seq<(String, String)>) -> Seq<(Seq<char>, Seq<char>)> {
    Seq::new(v.len(), |i: int| (v[i].0@, v[i].1@))
}

/// The records of a list of subpackets.
pub open spec fn subpackets_model(v: Seq<Subpacket>) -> Seq<SubpacketModel>
    decreases v,
{
    Seq::new(
        v.len(),
        |i: int|
            if 0 <= i < v.len() {
                v[i].model()
            } else {
                arbitrary()
            },
    )
}

impl RevocationKey {
    /// The key over plain sequences.
    pub open spec fn model(self) -> RevocationKeyModel {
        RevocationKeyModel {
            class: self.class,
            algorithm: self.algorithm,
            fingerprint: self.fingerprint@,
        }
    }
}

impl Subpacket {
    /// The subpacket over plain sequences.
    pub open spec fn model(self) -> SubpacketModel
        decreases self,
    {
        match self {
            Subpacket::SignatureCreationTime(t) => SubpacketModel::SignatureCreationTime(t),
            Subpacket::SignatureExpirationTime(t) => SubpacketModel::SignatureExpirationTime(t),
            Subpacket::KeyExpirationTime(t) => SubpacketModel::KeyExpirationTime(t),
            Subpacket::Issuer(id) => SubpacketModel::Issuer(id@),
            Subpacket::PreferredSymmetricAlgorithms(l) => SubpacketModel::PreferredSymmetricAlgorithms(
                l@,
            ),
            Subpacket::PreferredHashAlgorithms(l) => SubpacketModel::PreferredHashAlgorithms(l@),
            Subpacket::PreferredCompressionAlgorithms(
                l,
            ) => SubpacketModel::PreferredCompressionAlgorithms(l@),
            Subpacket::KeyServerPreferences(b) => SubpacketModel::KeyServerPreferences(b@),
            Subpacket::KeyFlags(b) => SubpacketModel::KeyFlags(b@),
            Subpacket::Features(b) => SubpacketModel::Features(b@),
            Subpacket::RevocationReason(code, b) => SubpacketModel::RevocationReason(code, b@),
            Subpacket::IsPrimary(b) => SubpacketModel::IsPrimary(b),
            Subpacket::Revocable(b) => SubpacketModel::Revocable(b),
            Subpacket::EmbeddedSignature(sig) => SubpacketModel::EmbeddedSignature(
                Box::new((*sig).model()),
            ),
            Subpacket::PreferredKeyServer(s) => SubpacketModel::PreferredKeyServer(s@),
            Subpacket::Notation(name, value) => SubpacketModel::Notation(name@, value@),
            Subpacket::RevocationKey(class, alg, fp) => SubpacketModel::RevocationKey(
                class,
                alg,
                fp@,
            ),
            Subpacket::SignersUserID(s) => SubpacketModel::SignersUserID(s@),
        }
    }
}

impl SignatureModel {
    /// A signature that no subpacket has spoken of yet: it is revocable
    /// and not primary, and every other field is empty.
    pub open spec fn initial(
        version: SignatureVersion,
        typ: SignatureType,
        pub_alg: PublicKeyAlgorithm,
        hash_alg: HashAlgorithm,
    ) -> SignatureModel {
        SignatureModel {
            version,
            typ,
            pub_alg,
            hash_alg,
            created: None,
            issuer: None,
            preferred_symmetric_algs: Seq::empty(),
            preferred_hash_algs: Seq::empty(),
            preferred_compression_algs: Seq::empty(),
            key_server_prefs: Seq::empty(),
            key_flags: Seq::empty(),
            features: Seq::empty(),
            key_expiration_time: None,
            signature_expiration_time: None,
            is_primary: false,
            is_revocable: true,
            revocation_reason_code: None,
            revocation_reason_string: None,
            revocation_key: None,
            notations: Seq::empty(),
            embedded_signature: None,
            preferred_key_server: None,
            signers_userid: None,
            unhashed_subpackets: Seq::empty(),
        }
    }
}

impl Signature {
    /// The signature over plain sequences.
    pub open spec fn model(self) -> SignatureModel
        decreases self,
    {
        SignatureModel {
            version: self.version,
            typ: self.typ,
            pub_alg: self.pub_alg,
            hash_alg: self.hash_alg,
            created: self.created,
            issuer: match self.issuer {
                Some(id) => Some(id@),
                None => None,
            },
            preferred_symmetric_algs: self.preferred_symmetric_algs@,
            preferred_hash_algs: self.preferred_hash_algs@,
            preferred_compression_algs: self.preferred_compression_algs@,
            key_server_prefs: self.key_server_prefs@,
            key_flags: self.key_flags@,
            features: self.features@,
            key_expiration_time: self.key_expiration_time,
            signature_expiration_time: self.signature_expiration_time,
            is_primary: self.is_primary,
            is_revocable: self.is_revocable,
            revocation_reason_code: self.revocation_reason_code,
            revocation_reason_string: match self.revocation_reason_string {
                Some(s) => Some(s@),
                None => None,
            },
            revocation_key: match self.revocation_key {
                Some(k) => Some(k.model()),
                None => None,
            },
            notations: notations_model(self.notations@),
            embedded_signature: match self.embedded_signature {
                Some(sig) => Some(Box::new((*sig).model())),
                None => None,
            },
            preferred_key_server: match self.preferred_key_server {
                Some(s) => Some(s@),
                None => None,
            },
            signers_userid: match self.signers_userid {
                Some(s) => Some(s@),
                None => None,
            },
            unhashed_subpackets: subpackets_model(self.unhashed_subpackets@),
        }
    }

    /// A signature that no subpacket has spoken of yet.
    pub fn new(
        version: SignatureVersion,
        typ: SignatureType,
        pub_alg: PublicKeyAlgorithm,
        hash_alg: HashAlgorithm,
    ) -> (sig: Signature)
        ensures
            sig.model() == SignatureModel::initial(version, typ, pub_alg, hash_alg),
    {
        let sig = Signature {
            version,
            typ,
            pub_alg,
            hash_alg,
            created: None,
            issuer: None,
            preferred_symmetric_algs: Vec::new(),
            preferred_hash_algs: Vec::new(),
            preferred_compression_algs: Vec::new(),
            key_server_prefs: Vec::new(),
            key_flags: Vec::new(),
            features: Vec::new(),
            key_expiration_time: None,
            signature_expiration_time: None,
            is_primary: false,
            is_revocable: true,
            revocation_reason_code: None,
            revocation_reason_string: None,
            revocation_key: None,
            notations: Vec::new(),
            embedded_signature: None,
            preferred_key_server: None,
            signers_userid: None,
            unhashed_subpackets: Vec::new(),
        };
        assert(sig.model().notations =~= Seq::empty());
        assert(subpackets_model(sig.unhashed_subpackets@) =~= Seq::empty());
        sig
    }
}

} // verus!

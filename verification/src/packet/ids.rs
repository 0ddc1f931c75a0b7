//! The identifiers that signature packets carry.

use vstd::prelude::*;

verus! {

/// The version of a signature packet.
#[derive(Debug, Clone, Copy, PartialEq, Eq, Structural)]
pub enum SignatureVersion {
    V2,
    V3,
    V4,
}

impl SignatureVersion {
    /// The value that an identifier octet names, if any.
    pub open spec fn of_id(id: u8) -> Option<SignatureVersion> {
        if id == 2 {
            Some(SignatureVersion::V2)
        } else if id == 3 {
            Some(SignatureVersion::V3)
        } else if id == 4 {
            Some(SignatureVersion::V4)
        } else {
            None
        }
    }

    /// The identifier octet of the value.
    pub open spec fn id(self) -> u8 {
        match self {
            SignatureVersion::V2 => 2,
            SignatureVersion::V3 => 3,
            SignatureVersion::V4 => 4,
        }
    }

    /// Reads an identifier octet.
    pub fn from_u8(id: u8) -> (out: Option<SignatureVersion>)
        ensures
            out == SignatureVersion::of_id(id),
    {
        match id {
            2 => Some(SignatureVersion::V2),
            3 => Some(SignatureVersion::V3),
            4 => Some(SignatureVersion::V4),
            _ => None,
        }
    }

    /// Writes the identifier octet.
    pub fn to_u8(self) -> (id: u8)
        ensures
            id == self.id(),
            SignatureVersion::of_id(id) == Some(self),
    {
        match self {
            SignatureVersion::V2 => 2,
            SignatureVersion::V3 => 3,
            SignatureVersion::V4 => 4,
        }
    }
}

/// What a signature is made over.
#[derive(Debug, Clone, Copy, PartialEq, Eq, Structural)]
pub enum SignatureType {
    Binary,
    Text,
    Standalone,
    CertGeneric,
    CertPersona,
    CertCasual,
    CertPositive,
    SubkeyBinding,
    KeyBinding,
    Key,
    KeyRevocation,
    SubkeyRevocation,
    CertRevocation,
    Timestamp,
    ThirdParty,
}

impl SignatureType {
    /// The value that an identifier octet names, if any.
    pub open spec fn of_id(id: u8) -> Option<SignatureType> {
        if id == 0 {
            Some(SignatureType::Binary)
        } else if id == 1 {
            Some(SignatureType::Text)
        } else if id == 2 {
            Some(SignatureType::Standalone)
        } else if id == 16 {
            Some(SignatureType::CertGeneric)
        } else if id == 17 {
            Some(SignatureType::CertPersona)
        } else if id == 18 {
            Some(SignatureType::CertCasual)
        } else if id == 19 {
            Some(SignatureType::CertPositive)
        } else if id == 24 {
            Some(SignatureType::SubkeyBinding)
        } else if id == 25 {
            Some(SignatureType::KeyBinding)
        } else if id == 31 {
            Some(SignatureType::Key)
        } else if id == 32 {
            Some(SignatureType::KeyRevocation)
        } else if id == 40 {
            Some(SignatureType::SubkeyRevocation)
        } else if id == 48 {
            Some(SignatureType::CertRevocation)
        } else if id == 64 {
            Some(SignatureType::Timestamp)
        } else if id == 80 {
            Some(SignatureType::ThirdParty)
        } else {
            None
        }
    }

    /// The identifier octet of the value.
    pub open spec fn id(self) -> u8 {
        match self {
            SignatureType::Binary => 0,
            SignatureType::Text => 1,
            SignatureType::Standalone => 2,
            SignatureType::CertGeneric => 16,
            SignatureType::CertPersona => 17,
            SignatureType::CertCasual => 18,
            SignatureType::CertPositive => 19,
            SignatureType::SubkeyBinding => 24,
            SignatureType::KeyBinding => 25,
            SignatureType::Key => 31,
            SignatureType::KeyRevocation => 32,
            SignatureType::SubkeyRevocation => 40,
            SignatureType::CertRevocation => 48,
            SignatureType::Timestamp => 64,
            SignatureType::ThirdParty => 80,
        }
    }

    /// Reads an identifier octet.
    pub fn from_u8(id: u8) -> (out: Option<SignatureType>)
        ensures
            out == SignatureType::of_id(id),
    {
        match id {
            0 => Some(SignatureType::Binary),
            1 => Some(SignatureType::Text),
            2 => Some(SignatureType::Standalone),
            16 => Some(SignatureType::CertGeneric),
            17 => Some(SignatureType::CertPersona),
            18 => Some(SignatureType::CertCasual),
            19 => Some(SignatureType::CertPositive),
            24 => Some(SignatureType::SubkeyBinding),
            25 => Some(SignatureType::KeyBinding),
            31 => Some(SignatureType::Key),
            32 => Some(SignatureType::KeyRevocation),
            40 => Some(SignatureType::SubkeyRevocation),
            48 => Some(SignatureType::CertRevocation),
            64 => Some(SignatureType::Timestamp),
            80 => Some(SignatureType::ThirdParty),
            _ => None,
        }
    }

    /// Writes the identifier octet.
    pub fn to_u8(self) -> (id: u8)
        ensures
            id == self.id(),
            SignatureType::of_id(id) == Some(self),
    {
        match self {
            SignatureType::Binary => 0,
            SignatureType::Text => 1,
            SignatureType::Standalone => 2,
            SignatureType::CertGeneric => 16,
            SignatureType::CertPersona => 17,
            SignatureType::CertCasual => 18,
            SignatureType::CertPositive => 19,
            SignatureType::SubkeyBinding => 24,
            SignatureType::KeyBinding => 25,
            SignatureType::Key => 31,
            SignatureType::KeyRevocation => 32,
            SignatureType::SubkeyRevocation => 40,
            SignatureType::CertRevocation => 48,
            SignatureType::Timestamp => 64,
            SignatureType::ThirdParty => 80,
        }
    }
}

/// The public-key algorithms that a packet can name.
#[derive(Debug, Clone, Copy, PartialEq, Eq, Structural)]
pub enum PublicKeyAlgorithm {
    RSA,
    RSAEncrypt,
    RSASign,
    ElgamalSign,
    DSA,
    ECDH,
    ECDSA,
    Elgamal,
    DiffieHellman,
    EdDSA,
    Private100,
    Private101,
    Private102,
    Private103,
    Private104,
    Private105,
    Private106,
    Private107,
    Private108,
    Private109,
    Private110,
}

impl PublicKeyAlgorithm {
    /// The value that an identifier octet names, if any.
    pub open spec fn of_id(id: u8) -> Option<PublicKeyAlgorithm> {
        if id == 1 {
            Some(PublicKeyAlgorithm::RSA)
        } else if id == 2 {
            Some(PublicKeyAlgorithm::RSAEncrypt)
        } else if id == 3 {
            Some(PublicKeyAlgorithm::RSASign)
        } else if id == 16 {
            Some(PublicKeyAlgorithm::ElgamalSign)
        } else if id == 17 {
            Some(PublicKeyAlgorithm::DSA)
        } else if id == 18 {
            Some(PublicKeyAlgorithm::ECDH)
        } else if id == 19 {
            Some(PublicKeyAlgorithm::ECDSA)
        } else if id == 20 {
            Some(PublicKeyAlgorithm::Elgamal)
        } else if id == 21 {
            Some(PublicKeyAlgorithm::DiffieHellman)
        } else if id == 22 {
            Some(PublicKeyAlgorithm::EdDSA)
        } else if id == 100 {
            Some(PublicKeyAlgorithm::Private100)
        } else if id == 101 {
            Some(PublicKeyAlgorithm::Private101)
        } else if id == 102 {
            Some(PublicKeyAlgorithm::Private102)
        } else if id == 103 {
            Some(PublicKeyAlgorithm::Private103)
        } else if id == 104 {
            Some(PublicKeyAlgorithm::Private104)
        } else if id == 105 {
            Some(PublicKeyAlgorithm::Private105)
        } else if id == 106 {
            Some(PublicKeyAlgorithm::Private106)
        } else if id == 107 {
            Some(PublicKeyAlgorithm::Private107)
        } else if id == 108 {
            Some(PublicKeyAlgorithm::Private108)
        } else if id == 109 {
            Some(PublicKeyAlgorithm::Private109)
        } else if id == 110 {
            Some(PublicKeyAlgorithm::Private110)
        } else {
            None
        }
    }

    /// The identifier octet of the value.
    pub open spec fn id(self) -> u8 {
        match self {
            PublicKeyAlgorithm::RSA => 1,
            PublicKeyAlgorithm::RSAEncrypt => 2,
            PublicKeyAlgorithm::RSASign => 3,
            PublicKeyAlgorithm::ElgamalSign => 16,
            PublicKeyAlgorithm::DSA => 17,
            PublicKeyAlgorithm::ECDH => 18,
            PublicKeyAlgorithm::ECDSA => 19,
            PublicKeyAlgorithm::Elgamal => 20,
            PublicKeyAlgorithm::DiffieHellman => 21,
            PublicKeyAlgorithm::EdDSA => 22,
            PublicKeyAlgorithm::Private100 => 100,
            PublicKeyAlgorithm::Private101 => 101,
            PublicKeyAlgorithm::Private102 => 102,
            PublicKeyAlgorithm::Private103 => 103,
            PublicKeyAlgorithm::Private104 => 104,
            PublicKeyAlgorithm::Private105 => 105,
            PublicKeyAlgorithm::Private106 => 106,
            PublicKeyAlgorithm::Private107 => 107,
            PublicKeyAlgorithm::Private108 => 108,
            PublicKeyAlgorithm::Private109 => 109,
            PublicKeyAlgorithm::Private110 => 110,
        }
    }

    /// Reads an identifier octet.
    pub fn from_u8(id: u8) -> (out: Option<PublicKeyAlgorithm>)
        ensures
            out == PublicKeyAlgorithm::of_id(id),
    {
        match id {
            1 => Some(PublicKeyAlgorithm::RSA),
            2 => Some(PublicKeyAlgorithm::RSAEncrypt),
            3 => Some(PublicKeyAlgorithm::RSASign),
            16 => Some(PublicKeyAlgorithm::ElgamalSign),
            17 => Some(PublicKeyAlgorithm::DSA),
            18 => Some(PublicKeyAlgorithm::ECDH),
            19 => Some(PublicKeyAlgorithm::ECDSA),
            20 => Some(PublicKeyAlgorithm::Elgamal),
            21 => Some(PublicKeyAlgorithm::DiffieHellman),
            22 => Some(PublicKeyAlgorithm::EdDSA),
            100 => Some(PublicKeyAlgorithm::Private100),
            101 => Some(PublicKeyAlgorithm::Private101),
            102 => Some(PublicKeyAlgorithm::Private102),
            103 => Some(PublicKeyAlgorithm::Private103),
            104 => Some(PublicKeyAlgorithm::Private104),
            105 => Some(PublicKeyAlgorithm::Private105),
            106 => Some(PublicKeyAlgorithm::Private106),
            107 => Some(PublicKeyAlgorithm::Private107),
            108 => Some(PublicKeyAlgorithm::Private108),
            109 => Some(PublicKeyAlgorithm::Private109),
            110 => Some(PublicKeyAlgorithm::Private110),
            _ => None,
        }
    }

    /// Writes the identifier octet.
    pub fn to_u8(self) -> (id: u8)
        ensures
            id == self.id(),
            PublicKeyAlgorithm::of_id(id) == Some(self),
    {
        match self {
            PublicKeyAlgorithm::RSA => 1,
            PublicKeyAlgorithm::RSAEncrypt => 2,
            PublicKeyAlgorithm::RSASign => 3,
            PublicKeyAlgorithm::ElgamalSign => 16,
            PublicKeyAlgorithm::DSA => 17,
            PublicKeyAlgorithm::ECDH => 18,
            PublicKeyAlgorithm::ECDSA => 19,
            PublicKeyAlgorithm::Elgamal => 20,
            PublicKeyAlgorithm::DiffieHellman => 21,
            PublicKeyAlgorithm::EdDSA => 22,
            PublicKeyAlgorithm::Private100 => 100,
            PublicKeyAlgorithm::Private101 => 101,
            PublicKeyAlgorithm::Private102 => 102,
            PublicKeyAlgorithm::Private103 => 103,
            PublicKeyAlgorithm::Private104 => 104,
            PublicKeyAlgorithm::Private105 => 105,
            PublicKeyAlgorithm::Private106 => 106,
            PublicKeyAlgorithm::Private107 => 107,
            PublicKeyAlgorithm::Private108 => 108,
            PublicKeyAlgorithm::Private109 => 109,
            PublicKeyAlgorithm::Private110 => 110,
        }
    }
}

/// The compression algorithms that a packet can name.
#[derive(Debug, Clone, Copy, PartialEq, Eq, Structural)]
pub enum CompressionAlgorithm {
    Uncompressed,
    ZIP,
    ZLIB,
    BZip2,
    Private10,
}

impl CompressionAlgorithm {
    /// The value that an identifier octet names, if any.
    pub open spec fn of_id(id: u8) -> Option<CompressionAlgorithm> {
        if id == 0 {
            Some(CompressionAlgorithm::Uncompressed)
        } else if id == 1 {
            Some(CompressionAlgorithm::ZIP)
        } else if id == 2 {
            Some(CompressionAlgorithm::ZLIB)
        } else if id == 3 {
            Some(CompressionAlgorithm::BZip2)
        } else if id == 110 {
            Some(CompressionAlgorithm::Private10)
        } else {
            None
        }
    }

    /// The identifier octet of the value.
    pub open spec fn id(self) -> u8 {
        match self {
            CompressionAlgorithm::Uncompressed => 0,
            CompressionAlgorithm::ZIP => 1,
            CompressionAlgorithm::ZLIB => 2,
            CompressionAlgorithm::BZip2 => 3,
            CompressionAlgorithm::Private10 => 110,
        }
    }

    /// Reads an identifier octet.
    pub fn from_u8(id: u8) -> (out: Option<CompressionAlgorithm>)
        ensures
            out == CompressionAlgorithm::of_id(id),
    {
        match id {
            0 => Some(CompressionAlgorithm::Uncompressed),
            1 => Some(CompressionAlgorithm::ZIP),
            2 => Some(CompressionAlgorithm::ZLIB),
            3 => Some(CompressionAlgorithm::BZip2),
            110 => Some(CompressionAlgorithm::Private10),
            _ => None,
        }
    }

    /// Writes the identifier octet.
    pub fn to_u8(self) -> (id: u8)
        ensures
            id == self.id(),
            CompressionAlgorithm::of_id(id) == Some(self),
    {
        match self {
            CompressionAlgorithm::Uncompressed => 0,
            CompressionAlgorithm::ZIP => 1,
            CompressionAlgorithm::ZLIB => 2,
            CompressionAlgorithm::BZip2 => 3,
            CompressionAlgorithm::Private10 => 110,
        }
    }
}

/// Why a key or a certification was revoked.
#[derive(Debug, Clone, Copy, PartialEq, Eq, Structural)]
pub enum RevocationCode {
    NoReason,
    KeySuperseded,
    KeyCompromised,
    KeyRetired,
    CertUserIdInvalid,
    Private100,
    Private101,
    Private102,
    Private103,
    Private104,
    Private105,
    Private106,
    Private107,
    Private108,
    Private109,
    Private110,
}

impl RevocationCode {
    /// The value that an identifier octet names, if any.
    pub open spec fn of_id(id: u8) -> Option<RevocationCode> {
        if id == 0 {
            Some(RevocationCode::NoReason)
        } else if id == 1 {
            Some(RevocationCode::KeySuperseded)
        } else if id == 2 {
            Some(RevocationCode::KeyCompromised)
        } else if id == 3 {
            Some(RevocationCode::KeyRetired)
        } else if id == 32 {
            Some(RevocationCode::CertUserIdInvalid)
        } else if id == 100 {
            Some(RevocationCode::Private100)
        } else if id == 101 {
            Some(RevocationCode::Private101)
        } else if id == 102 {
            Some(RevocationCode::Private102)
        } else if id == 103 {
            Some(RevocationCode::Private103)
        } else if id == 104 {
            Some(RevocationCode::Private104)
        } else if id == 105 {
            Some(RevocationCode::Private105)
        } else if id == 106 {
            Some(RevocationCode::Private106)
        } else if id == 107 {
            Some(RevocationCode::Private107)
        } else if id == 108 {
            Some(RevocationCode::Private108)
        } else if id == 109 {
            Some(RevocationCode::Private109)
        } else if id == 110 {
            Some(RevocationCode::Private110)
        } else {
            None
        }
    }

    /// The identifier octet of the value.
    pub open spec fn id(self) -> u8 {
        match self {
            RevocationCode::NoReason => 0,
            RevocationCode::KeySuperseded => 1,
            RevocationCode::KeyCompromised => 2,
            RevocationCode::KeyRetired => 3,
            RevocationCode::CertUserIdInvalid => 32,
            RevocationCode::Private100 => 100,
            RevocationCode::Private101 => 101,
            RevocationCode::Private102 => 102,
            RevocationCode::Private103 => 103,
            RevocationCode::Private104 => 104,
            RevocationCode::Private105 => 105,
            RevocationCode::Private106 => 106,
            RevocationCode::Private107 => 107,
            RevocationCode::Private108 => 108,
            RevocationCode::Private109 => 109,
            RevocationCode::Private110 => 110,
        }
    }

    /// Reads an identifier octet.
    pub fn from_u8(id: u8) -> (out: Option<RevocationCode>)
        ensures
            out == RevocationCode::of_id(id),
    {
        match id {
            0 => Some(RevocationCode::NoReason),
            1 => Some(RevocationCode::KeySuperseded),
            2 => Some(RevocationCode::KeyCompromised),
            3 => Some(RevocationCode::KeyRetired),
            32 => Some(RevocationCode::CertUserIdInvalid),
            100 => Some(RevocationCode::Private100),
            101 => Some(RevocationCode::Private101),
            102 => Some(RevocationCode::Private102),
            103 => Some(RevocationCode::Private103),
            104 => Some(RevocationCode::Private104),
            105 => Some(RevocationCode::Private105),
            106 => Some(RevocationCode::Private106),
            107 => Some(RevocationCode::Private107),
            108 => Some(RevocationCode::Private108),
            109 => Some(RevocationCode::Private109),
            110 => Some(RevocationCode::Private110),
            _ => None,
        }
    }

    /// Writes the identifier octet.
    pub fn to_u8(self) -> (id: u8)
        ensures
            id == self.id(),
            RevocationCode::of_id(id) == Some(self),
    {
        match self {
            RevocationCode::NoReason => 0,
            RevocationCode::KeySuperseded => 1,
            RevocationCode::KeyCompromised => 2,
            RevocationCode::KeyRetired => 3,
            RevocationCode::CertUserIdInvalid => 32,
            RevocationCode::Private100 => 100,
            RevocationCode::Private101 => 101,
            RevocationCode::Private102 => 102,
            RevocationCode::Private103 => 103,
            RevocationCode::Private104 => 104,
            RevocationCode::Private105 => 105,
            RevocationCode::Private106 => 106,
            RevocationCode::Private107 => 107,
            RevocationCode::Private108 => 108,
            RevocationCode::Private109 => 109,
            RevocationCode::Private110 => 110,
        }
    }
}

/// The kinds of signature subpackets.
#[derive(Debug, Clone, Copy, PartialEq, Eq, Structural)]
pub enum SubpacketType {
    SignatureCreationTime,
    SignatureExpirationTime,
    ExportableCertification,
    TrustSignature,
    RegularExpression,
    Revocable,
    KeyExpirationTime,
    PreferredSymmetricAlgorithms,
    RevocationKey,
    Issuer,
    NotationData,
    PreferredHashAlgorithms,
    PreferredCompressionAlgorithms,
    KeyServerPreferences,
    PreferredKeyServer,
    PrimaryUserID,
    PolicyURI,
    KeyFlags,
    SignersUserID,
    RevocationReason,
    Features,
    SignatureTarget,
    EmbeddedSignature,
}

impl SubpacketType {
    /// The value that an identifier octet names, if any.
    pub open spec fn of_id(id: u8) -> Option<SubpacketType> {
        if id == 2 {
            Some(SubpacketType::SignatureCreationTime)
        } else if id == 3 {
            Some(SubpacketType::SignatureExpirationTime)
        } else if id == 4 {
            Some(SubpacketType::ExportableCertification)
        } else if id == 5 {
            Some(SubpacketType::TrustSignature)
        } else if id == 6 {
            Some(SubpacketType::RegularExpression)
        } else if id == 7 {
            Some(SubpacketType::Revocable)
        } else if id == 9 {
            Some(SubpacketType::KeyExpirationTime)
        } else if id == 11 {
            Some(SubpacketType::PreferredSymmetricAlgorithms)
        } else if id == 12 {
            Some(SubpacketType::RevocationKey)
        } else if id == 16 {
            Some(SubpacketType::Issuer)
        } else if id == 20 {
            Some(SubpacketType::NotationData)
        } else if id == 21 {
            Some(SubpacketType::PreferredHashAlgorithms)
        } else if id == 22 {
            Some(SubpacketType::PreferredCompressionAlgorithms)
        } else if id == 23 {
            Some(SubpacketType::KeyServerPreferences)
        } else if id == 24 {
            Some(SubpacketType::PreferredKeyServer)
        } else if id == 25 {
            Some(SubpacketType::PrimaryUserID)
        } else if id == 26 {
            Some(SubpacketType::PolicyURI)
        } else if id == 27 {
            Some(SubpacketType::KeyFlags)
        } else if id == 28 {
            Some(SubpacketType::SignersUserID)
        } else if id == 29 {
            Some(SubpacketType::RevocationReason)
        } else if id == 30 {
            Some(SubpacketType::Features)
        } else if id == 31 {
            Some(SubpacketType::SignatureTarget)
        } else if id == 32 {
            Some(SubpacketType::EmbeddedSignature)
        } else {
            None
        }
    }

    /// The identifier octet of the value.
    pub open spec fn id(self) -> u8 {
        match self {
            SubpacketType::SignatureCreationTime => 2,
            SubpacketType::SignatureExpirationTime => 3,
            SubpacketType::ExportableCertification => 4,
            SubpacketType::TrustSignature => 5,
            SubpacketType::RegularExpression => 6,
            SubpacketType::Revocable => 7,
            SubpacketType::KeyExpirationTime => 9,
            SubpacketType::PreferredSymmetricAlgorithms => 11,
            SubpacketType::RevocationKey => 12,
            SubpacketType::Issuer => 16,
            SubpacketType::NotationData => 20,
            SubpacketType::PreferredHashAlgorithms => 21,
            SubpacketType::PreferredCompressionAlgorithms => 22,
            SubpacketType::KeyServerPreferences => 23,
            SubpacketType::PreferredKeyServer => 24,
            SubpacketType::PrimaryUserID => 25,
            SubpacketType::PolicyURI => 26,
            SubpacketType::KeyFlags => 27,
            SubpacketType::SignersUserID => 28,
            SubpacketType::RevocationReason => 29,
            SubpacketType::Features => 30,
            SubpacketType::SignatureTarget => 31,
            SubpacketType::EmbeddedSignature => 32,
        }
    }

    /// Reads an identifier octet.
    pub fn from_u8(id: u8) -> (out: Option<SubpacketType>)
        ensures
            out == SubpacketType::of_id(id),
    {
        match id {
            2 => Some(SubpacketType::SignatureCreationTime),
            3 => Some(SubpacketType::SignatureExpirationTime),
            4 => Some(SubpacketType::ExportableCertification),
            5 => Some(SubpacketType::TrustSignature),
            6 => Some(SubpacketType::RegularExpression),
            7 => Some(SubpacketType::Revocable),
            9 => Some(SubpacketType::KeyExpirationTime),
            11 => Some(SubpacketType::PreferredSymmetricAlgorithms),
            12 => Some(SubpacketType::RevocationKey),
            16 => Some(SubpacketType::Issuer),
            20 => Some(SubpacketType::NotationData),
            21 => Some(SubpacketType::PreferredHashAlgorithms),
            22 => Some(SubpacketType::PreferredCompressionAlgorithms),
            23 => Some(SubpacketType::KeyServerPreferences),
            24 => Some(SubpacketType::PreferredKeyServer),
            25 => Some(SubpacketType::PrimaryUserID),
            26 => Some(SubpacketType::PolicyURI),
            27 => Some(SubpacketType::KeyFlags),
            28 => Some(SubpacketType::SignersUserID),
            29 => Some(SubpacketType::RevocationReason),
            30 => Some(SubpacketType::Features),
            31 => Some(SubpacketType::SignatureTarget),
            32 => Some(SubpacketType::EmbeddedSignature),
            _ => None,
        }
    }

    /// Writes the identifier octet.
    pub fn to_u8(self) -> (id: u8)
        ensures
            id == self.id(),
            SubpacketType::of_id(id) == Some(self),
    {
        match self {
            SubpacketType::SignatureCreationTime => 2,
            SubpacketType::SignatureExpirationTime => 3,
            SubpacketType::ExportableCertification => 4,
            SubpacketType::TrustSignature => 5,
            SubpacketType::RegularExpression => 6,
            SubpacketType::Revocable => 7,
            SubpacketType::KeyExpirationTime => 9,
            SubpacketType::PreferredSymmetricAlgorithms => 11,
            SubpacketType::RevocationKey => 12,
            SubpacketType::Issuer => 16,
            SubpacketType::NotationData => 20,
            SubpacketType::PreferredHashAlgorithms => 21,
            SubpacketType::PreferredCompressionAlgorithms => 22,
            SubpacketType::KeyServerPreferences => 23,
            SubpacketType::PreferredKeyServer => 24,
            SubpacketType::PrimaryUserID => 25,
            SubpacketType::PolicyURI => 26,
            SubpacketType::KeyFlags => 27,
            SubpacketType::SignersUserID => 28,
            SubpacketType::RevocationReason => 29,
            SubpacketType::Features => 30,
            SubpacketType::SignatureTarget => 31,
            SubpacketType::EmbeddedSignature => 32,
        }
    }
}

/// What a key may be used for;
/// each flag is one bit of the first octet of the key flags.
#[derive(Debug, Clone, Copy, PartialEq, Eq, Structural)]
pub enum KeyFlag {
    CertifyKeys,
    SignData,
    EncryptCommunication,
    EncryptStorage,
    SplitPrivateKey,
    Authentication,
    SharedPrivateKey,
}

impl KeyFlag {
    /// The value that an identifier octet names, if any.
    pub open spec fn of_id(id: u8) -> Option<KeyFlag> {
        if id == 1 {
            Some(KeyFlag::CertifyKeys)
        } else if id == 2 {
            Some(KeyFlag::SignData)
        } else if id == 4 {
            Some(KeyFlag::EncryptCommunication)
        } else if id == 8 {
            Some(KeyFlag::EncryptStorage)
        } else if id == 16 {
            Some(KeyFlag::SplitPrivateKey)
        } else if id == 32 {
            Some(KeyFlag::Authentication)
        } else if id == 128 {
            Some(KeyFlag::SharedPrivateKey)
        } else {
            None
        }
    }

    /// The identifier octet of the value.
    pub open spec fn id(self) -> u8 {
        match self {
            KeyFlag::CertifyKeys => 1,
            KeyFlag::SignData => 2,
            KeyFlag::EncryptCommunication => 4,
            KeyFlag::EncryptStorage => 8,
            KeyFlag::SplitPrivateKey => 16,
            KeyFlag::Authentication => 32,
            KeyFlag::SharedPrivateKey => 128,
        }
    }

    /// Reads an identifier octet.
    pub fn from_u8(id: u8) -> (out: Option<KeyFlag>)
        ensures
            out == KeyFlag::of_id(id),
    {
        match id {
            1 => Some(KeyFlag::CertifyKeys),
            2 => Some(KeyFlag::SignData),
            4 => Some(KeyFlag::EncryptCommunication),
            8 => Some(KeyFlag::EncryptStorage),
            16 => Some(KeyFlag::SplitPrivateKey),
            32 => Some(KeyFlag::Authentication),
            128 => Some(KeyFlag::SharedPrivateKey),
            _ => None,
        }
    }

    /// Writes the identifier octet.
    pub fn to_u8(self) -> (id: u8)
        ensures
            id == self.id(),
            KeyFlag::of_id(id) == Some(self),
    {
        match self {
            KeyFlag::CertifyKeys => 1,
            KeyFlag::SignData => 2,
            KeyFlag::EncryptCommunication => 4,
            KeyFlag::EncryptStorage => 8,
            KeyFlag::SplitPrivateKey => 16,
            KeyFlag::Authentication => 32,
            KeyFlag::SharedPrivateKey => 128,
        }
    }
}

} // verus!

//! The grammar of signature packets: what each run of octets stands
//! for, stated over plain sequences.

use vstd::prelude::*;
use vstd::utf8::{decode_utf8, valid_utf8};
use crate::crypto::hash::HashAlgorithm;
use crate::crypto::sym::SymmetricKeyAlgorithm;
use crate::errors::Error;
use crate::packet::ids::{
    CompressionAlgorithm,
    PublicKeyAlgorithm,
    RevocationCode,
    SignatureType,
    SignatureVersion,
    SubpacketType,
};
use crate::packet::types::{RevocationKeyModel, SignatureModel, SubpacketModel};
use crate::util::{be_u16_of, be_u32_of, packet_length_spec};

verus! {

/// The text that octets encode; they must be valid UTF-8.
pub open spec fn text_of(body: Seq<u8>) -> Result<Seq<char>, Error> {
    if valid_utf8(body) {
        Ok(decode_utf8(body))
    } else {
        Err(Error::InvalidUtf8)
    }
}

/// The ciphers that the octets at the start of `body` name, up to the
/// first octet that names none.
pub open spec fn leading_sym_algs(body: Seq<u8>) -> Seq<SymmetricKeyAlgorithm>
    decreases body.len(),
{
    if body.len() == 0 || SymmetricKeyAlgorithm::known_id(body[0]) is None {
        Seq::empty()
    } else {
        seq![SymmetricKeyAlgorithm::known_id(body[0])->0] + leading_sym_algs(body.drop_first())
    }
}

/// The hashes that the octets at the start of `body` name, up to the
/// first octet that names none.
pub open spec fn leading_hash_algs(body: Seq<u8>) -> Seq<HashAlgorithm>
    decreases body.len(),
{
    if body.len() == 0 || HashAlgorithm::of_id(body[0]) is None {
        Seq::empty()
    } else {
        seq![HashAlgorithm::of_id(body[0])->0] + leading_hash_algs(body.drop_first())
    }
}

/// The compression algorithms that the octets at the start of `body`
/// name, up to the first octet that names none.
pub open spec fn leading_compression_algs(body: Seq<u8>) -> Seq<CompressionAlgorithm>
    decreases body.len(),
{
    if body.len() == 0 || CompressionAlgorithm::of_id(body[0]) is None {
        Seq::empty()
    } else {
        seq![CompressionAlgorithm::of_id(body[0])->0] + leading_compression_algs(
            body.drop_first(),
        )
    }
}

/// A notation: four octets of flags, which must say that the value is
/// text, the lengths of name and value in two octets each, and then the
/// name and the value.
pub open spec fn notation_spec(body: Seq<u8>) -> Result<SubpacketModel, Error> {
    if body.len() < 8 || body.subrange(0, 4) != seq![0x80u8, 0u8, 0u8, 0u8] {
        Err(Error::InvalidInput)
    } else {
        let name_len = be_u16_of(body.subrange(4, 6));
        let value_len = be_u16_of(body.subrange(6, 8));
        if body.len() < 8 + name_len + value_len {
            Err(Error::InvalidInput)
        } else {
            match text_of(body.subrange(8, 8 + name_len)) {
                Err(e) => Err(e),
                Ok(name) => match text_of(
                    body.subrange(8 + name_len, 8 + name_len + value_len),
                ) {
                    Err(e) => Err(e),
                    Ok(value) => Ok(SubpacketModel::Notation(name, value)),
                },
            }
        }
    }
}

/// What the body of a subpacket of the kind `typ` holds, for every kind
/// but an embedded signature. A body that is too short for its kind is
/// refused with `InvalidInput`, as is an identifier in it that names
/// nothing; octets behind what a kind reads are passed over. Five kinds
/// are known but not read: they are refused with `Unimplemented`.
#[verifier::opaque]
pub open spec fn flat_subpacket_spec(typ: SubpacketType, body: Seq<u8>) -> Result<
    SubpacketModel,
    Error,
>
    recommends
        typ != SubpacketType::EmbeddedSignature,
{
    match typ {
        SubpacketType::SignatureCreationTime => if body.len() < 4 {
            Err(Error::InvalidInput)
        } else {
            Ok(SubpacketModel::SignatureCreationTime(be_u32_of(body.subrange(0, 4)) as u32))
        },
        SubpacketType::SignatureExpirationTime => if body.len() < 4 {
            Err(Error::InvalidInput)
        } else {
            Ok(SubpacketModel::SignatureExpirationTime(be_u32_of(body.subrange(0, 4)) as u32))
        },
        SubpacketType::KeyExpirationTime => if body.len() < 4 {
            Err(Error::InvalidInput)
        } else {
            Ok(SubpacketModel::KeyExpirationTime(be_u32_of(body.subrange(0, 4)) as u32))
        },
        SubpacketType::Revocable => if body.len() < 1 {
            Err(Error::InvalidInput)
        } else {
            Ok(SubpacketModel::Revocable(body[0] == 1))
        },
        SubpacketType::PrimaryUserID => if body.len() < 1 {
            Err(Error::InvalidInput)
        } else {
            Ok(SubpacketModel::IsPrimary(body[0] == 1))
        },
        SubpacketType::PreferredSymmetricAlgorithms => if leading_sym_algs(body).len() == 0 {
            Err(Error::InvalidInput)
        } else {
            Ok(SubpacketModel::PreferredSymmetricAlgorithms(leading_sym_algs(body)))
        },
        SubpacketType::PreferredHashAlgorithms => if leading_hash_algs(body).len() == 0 {
            Err(Error::InvalidInput)
        } else {
            Ok(SubpacketModel::PreferredHashAlgorithms(leading_hash_algs(body)))
        },
        SubpacketType::PreferredCompressionAlgorithms => if leading_compression_algs(body).len()
            == 0 {
            Err(Error::InvalidInput)
        } else {
            Ok(SubpacketModel::PreferredCompressionAlgorithms(leading_compression_algs(body)))
        },
        SubpacketType::RevocationKey => if body.len() < 22 || PublicKeyAlgorithm::of_id(body[1])
            is None {
            Err(Error::InvalidInput)
        } else {
            Ok(
                SubpacketModel::RevocationKey(
                    body[0],
                    PublicKeyAlgorithm::of_id(body[1])->0,
                    body.subrange(2, 22),
                ),
            )
        },
        SubpacketType::Issuer => if body.len() < 8 {
            Err(Error::InvalidInput)
        } else {
            Ok(SubpacketModel::Issuer(body.subrange(0, 8)))
        },
        SubpacketType::NotationData => notation_spec(body),
        SubpacketType::KeyServerPreferences => Ok(SubpacketModel::KeyServerPreferences(body)),
        SubpacketType::KeyFlags => Ok(SubpacketModel::KeyFlags(body)),
        SubpacketType::Features => Ok(SubpacketModel::Features(body)),
        SubpacketType::PreferredKeyServer => match text_of(body) {
            Ok(s) => Ok(SubpacketModel::PreferredKeyServer(s)),
            Err(e) => Err(e),
        },
        SubpacketType::SignersUserID => match text_of(body) {
            Ok(s) => Ok(SubpacketModel::SignersUserID(s)),
            Err(e) => Err(e),
        },
        SubpacketType::RevocationReason => if body.len() < 1 || RevocationCode::of_id(body[0])
            is None {
            Err(Error::InvalidInput)
        } else {
            Ok(
                SubpacketModel::RevocationReason(
                    RevocationCode::of_id(body[0])->0,
                    body.subrange(1, body.len() as int),
                ),
            )
        },
        SubpacketType::EmbeddedSignature => Err(Error::InvalidInput),
        SubpacketType::ExportableCertification => Err(Error::Unimplemented),
        SubpacketType::TrustSignature => Err(Error::Unimplemented),
        SubpacketType::RegularExpression => Err(Error::Unimplemented),
        SubpacketType::PolicyURI => Err(Error::Unimplemented),
        SubpacketType::SignatureTarget => Err(Error::Unimplemented),
    }
}

/// What the body of a subpacket of the kind `typ` holds: a whole
/// signature where the kind says so, and else what the kind reads from
/// the body.
pub open spec fn subpacket_spec(typ: SubpacketType, body: Seq<u8>) -> Result<SubpacketModel, Error>
    decreases body.len(), 1nat,
{
    if typ == SubpacketType::EmbeddedSignature {
        match signature_spec(body) {
            Ok(sig) => Ok(SubpacketModel::EmbeddedSignature(Box::new(sig))),
            Err(e) => Err(e),
        }
    } else {
        flat_subpacket_spec(typ, body)
    }
}

/// The subpacket at the start of a region and the number of octets it
/// takes up: a length, an octet for its kind and a body. The length
/// counts the octet of the kind and so is at least 1; the subpacket must
/// end within the region and its kind must be known: anything else is
/// refused with `InvalidInput`.
pub open spec fn first_subpacket_spec(region: Seq<u8>) -> Result<(SubpacketModel, int), Error>
    decreases region.len(), 2nat,
{
    match packet_length_spec(region) {
        None => Err(Error::InvalidInput),
        Some((len, used)) => if len < 1 || region.len() < used + len {
            Err(Error::InvalidInput)
        } else {
            match SubpacketType::of_id(region[used]) {
                None => Err(Error::InvalidInput),
                Some(typ) => match subpacket_spec(typ, region.subrange(used + 1, used + len)) {
                    Err(e) => Err(e),
                    Ok(p) => Ok((p, used + len)),
                },
            }
        },
    }
}

/// The subpackets of a region, in their order: one after the other until
/// the region is used up.
pub open spec fn subpackets_spec(region: Seq<u8>) -> Result<Seq<SubpacketModel>, Error>
    decreases region.len(), 3nat,
{
    if region.len() == 0 {
        Ok(Seq::empty())
    } else {
        match first_subpacket_spec(region) {
            Err(e) => Err(e),
            Ok((p, used)) => if 0 < used <= region.len() {
                match subpackets_spec(region.subrange(used, region.len() as int)) {
                    Err(e) => Err(e),
                    Ok(rest) => Ok(seq![p] + rest),
                }
            } else {
                Err(Error::InvalidInput)
            },
        }
    }
}

/// The index of the first notation with the given name, or the length
/// of the list where there is none.
pub open spec fn name_index(notations: Seq<(Seq<char>, Seq<char>)>, name: Seq<char>) -> int
    decreases notations.len(),
{
    if notations.len() == 0 {
        0
    } else if notations[0].0 == name {
        0
    } else {
        1 + name_index(notations.drop_first(), name)
    }
}

/// The notations with `value` under `name`: in the place of an earlier
/// value of that name, or else at the end.
pub open spec fn notations_insert(
    notations: Seq<(Seq<char>, Seq<char>)>,
    name: Seq<char>,
    value: Seq<char>,
) -> Seq<(Seq<char>, Seq<char>)> {
    let i = name_index(notations, name);
    if i < notations.len() {
        notations.update(i, (name, value))
    } else {
        notations.push((name, value))
    }
}

/// The signature after one more hashed subpacket has had its say. A
/// single value replaces the earlier one; preferred algorithms are added
/// to those already listed; a notation replaces the one of the same
/// name. The reason of a revocation must be text.
#[verifier::opaque]
pub open spec fn apply_subpacket(sig: SignatureModel, p: SubpacketModel) -> Result<
    SignatureModel,
    Error,
> {
    match p {
        SubpacketModel::SignatureCreationTime(t) => Ok(SignatureModel { created: Some(t), ..sig }),
        SubpacketModel::SignatureExpirationTime(t) => Ok(
            SignatureModel { signature_expiration_time: Some(t), ..sig },
        ),
        SubpacketModel::KeyExpirationTime(t) => Ok(
            SignatureModel { key_expiration_time: Some(t), ..sig },
        ),
        SubpacketModel::Issuer(id) => Ok(SignatureModel { issuer: Some(id), ..sig }),
        SubpacketModel::PreferredSymmetricAlgorithms(l) => Ok(
            SignatureModel { preferred_symmetric_algs: sig.preferred_symmetric_algs + l, ..sig },
        ),
        SubpacketModel::PreferredHashAlgorithms(l) => Ok(
            SignatureModel { preferred_hash_algs: sig.preferred_hash_algs + l, ..sig },
        ),
        SubpacketModel::PreferredCompressionAlgorithms(l) => Ok(
            SignatureModel { preferred_compression_algs: sig.preferred_compression_algs + l, ..sig },
        ),
        SubpacketModel::KeyServerPreferences(b) => Ok(SignatureModel { key_server_prefs: b, ..sig }),
        SubpacketModel::KeyFlags(b) => Ok(SignatureModel { key_flags: b, ..sig }),
        SubpacketModel::Features(b) => Ok(SignatureModel { features: b, ..sig }),
        SubpacketModel::RevocationReason(code, body) => match text_of(body) {
            Ok(reason) => Ok(
                SignatureModel {
                    revocation_reason_code: Some(code),
                    revocation_reason_string: Some(reason),
                    ..sig
                },
            ),
            Err(e) => Err(e),
        },
        SubpacketModel::IsPrimary(b) => Ok(SignatureModel { is_primary: b, ..sig }),
        SubpacketModel::Revocable(b) => Ok(SignatureModel { is_revocable: b, ..sig }),
        SubpacketModel::EmbeddedSignature(inner) => Ok(
            SignatureModel { embedded_signature: Some(inner), ..sig },
        ),
        SubpacketModel::PreferredKeyServer(s) => Ok(
            SignatureModel { preferred_key_server: Some(s), ..sig },
        ),
        SubpacketModel::Notation(name, value) => Ok(
            SignatureModel { notations: notations_insert(sig.notations, name, value), ..sig },
        ),
        SubpacketModel::RevocationKey(class, algorithm, fingerprint) => Ok(
            SignatureModel {
                revocation_key: Some(RevocationKeyModel { class, algorithm, fingerprint }),
                ..sig
            },
        ),
        SubpacketModel::SignersUserID(s) => Ok(SignatureModel { signers_userid: Some(s), ..sig }),
    }
}

/// The signature after the hashed subpackets have had their say, one
/// after the other.
pub open spec fn collate(sig: SignatureModel, hashed: Seq<SubpacketModel>) -> Result<
    SignatureModel,
    Error,
>
    decreases hashed.len(),
{
    if hashed.len() == 0 {
        Ok(sig)
    } else {
        match apply_subpacket(sig, hashed[0]) {
            Err(e) => Err(e),
            Ok(next) => collate(next, hashed.drop_first()),
        }
    }
}

/// The signature that a packet body holds. The first octet is the
/// version, which must be 2, 3 or 4.
///
/// In the versions 2 and 3 the octet 5 and the kind of the signature
/// follow; the algorithms are RSA and SHA-1, and the rest is not read.
///
/// In version 4 the kind of the signature, the public-key algorithm and
/// the hash algorithm follow in one octet each; then the length of the
/// hashed subpackets in two octets and those subpackets, and the same for
/// the unhashed ones. The hashed subpackets are gathered into the
/// record, the unhashed ones are kept as a list. What follows is not
/// read.
pub open spec fn signature_spec(input: Seq<u8>) -> Result<SignatureModel, Error>
    decreases input.len(), 0nat,
{
    if input.len() < 1 {
        Err(Error::InvalidInput)
    } else {
        match SignatureVersion::of_id(input[0]) {
            None => Err(Error::InvalidInput),
            Some(SignatureVersion::V4) => {
                if input.len() < 6 || SignatureType::of_id(input[1]) is None
                    || PublicKeyAlgorithm::of_id(input[2]) is None || HashAlgorithm::of_id(
                    input[3],
                ) is None {
                    Err(Error::InvalidInput)
                } else {
                    let hashed_len = be_u16_of(input.subrange(4, 6));
                    if input.len() < 6 + hashed_len {
                        Err(Error::InvalidInput)
                    } else {
                        match subpackets_spec(input.subrange(6, 6 + hashed_len)) {
                            Err(e) => Err(e),
                            Ok(hashed) => {
                                let at = 6 + hashed_len;
                                if input.len() < at + 2 || input.len() < at + 2 + be_u16_of(
                                    input.subrange(at, at + 2),
                                ) {
                                    Err(Error::InvalidInput)
                                } else {
                                    let unhashed_len = be_u16_of(input.subrange(at, at + 2));
                                    match subpackets_spec(
                                        input.subrange(at + 2, at + 2 + unhashed_len),
                                    ) {
                                        Err(e) => Err(e),
                                        Ok(unhashed) => match collate(
                                            SignatureModel::initial(
                                                SignatureVersion::V4,
                                                SignatureType::of_id(input[1])->0,
                                                PublicKeyAlgorithm::of_id(input[2])->0,
                                                HashAlgorithm::of_id(input[3])->0,
                                            ),
                                            hashed,
                                        ) {
                                            Err(e) => Err(e),
                                            Ok(sig) => Ok(
                                                SignatureModel {
                                                    unhashed_subpackets: unhashed,
                                                    ..sig
                                                },
                                            ),
                                        },
                                    }
                                }
                            },
                        }
                    }
                }
            },
            Some(version) => {
                if input.len() < 3 || input[1] != 5 || SignatureType::of_id(input[2]) is None {
                    Err(Error::InvalidInput)
                } else {
                    Ok(
                        SignatureModel::initial(
                            version,
                            SignatureType::of_id(input[2])->0,
                            PublicKeyAlgorithm::RSA,
                            HashAlgorithm::SHA1,
                        ),
                    )
                }
            },
        }
    }
}

/// Where a signature that parses ends in its input: behind the kind in
/// the versions 2 and 3, behind the unhashed subpackets in version 4.
pub open spec fn signature_end(input: Seq<u8>) -> int {
    if input.len() >= 1 && input[0] == 4 {
        let hashed_len = be_u16_of(input.subrange(4, 6));
        8 + hashed_len + be_u16_of(input.subrange(6 + hashed_len, 8 + hashed_len))
    } else {
        3
    }
}

/// Whether no name stands twice among the notations.
pub open spec fn names_unique(notations: Seq<(Seq<char>, Seq<char>)>) -> bool {
    forall|i: int, j: int|
        0 <= i < j < notations.len() ==> (#[trigger] notations[i]).0 != (#[trigger] notations[j]).0
}

/// The index of a name is within the list exactly when the name stands
/// there, and it is then the place of the name; no earlier place holds
/// it.
pub proof fn lemma_name_index_bounds(notations: Seq<(Seq<char>, Seq<char>)>, name: Seq<char>)
    ensures
        0 <= name_index(notations, name) <= notations.len(),
        name_index(notations, name) < notations.len() ==> notations[name_index(
            notations,
            name,
        )].0 == name,
        forall|j: int| 0 <= j < name_index(notations, name) ==> notations[j].0 != name,
    decreases notations.len(),
{
    if notations.len() > 0 && notations[0].0 != name {
        let rest = notations.drop_first();
        lemma_name_index_bounds(rest, name);
        assert forall|j: int| 0 <= j < name_index(notations, name) implies notations[j].0
            != name by {
            if j > 0 {
                assert(notations[j] == rest[j - 1]);
            }
        }
    }
}

/// Putting a notation into a list without repeated names leaves it
/// without repeated names, and the list then holds the value under the
/// name.
pub proof fn lemma_insert_keeps_names_unique(
    notations: Seq<(Seq<char>, Seq<char>)>,
    name: Seq<char>,
    value: Seq<char>,
)
    requires
        names_unique(notations),
    ensures
        names_unique(notations_insert(notations, name, value)),
        notations_insert(notations, name, value).contains((name, value)),
{
    lemma_name_index_bounds(notations, name);
    let i = name_index(notations, name);
    let after = notations_insert(notations, name, value);
    if i < notations.len() {
        assert(after[i] == (name, value));
    } else {
        assert(after[notations.len() as int] == (name, value));
    }
}

/// Gathering hashed subpackets never makes a name stand twice among the
/// notations.
pub proof fn lemma_collate_keeps_names_unique(sig: SignatureModel, hashed: Seq<SubpacketModel>)
    requires
        names_unique(sig.notations),
    ensures
        collate(sig, hashed) matches Ok(out) ==> names_unique(out.notations),
    decreases hashed.len(),
{
    reveal(apply_subpacket);
    if hashed.len() > 0 {
        if let Ok(next) = apply_subpacket(sig, hashed[0]) {
            if let SubpacketModel::Notation(name, value) = hashed[0] {
                lemma_insert_keeps_names_unique(sig.notations, name, value);
            }
            lemma_collate_keeps_names_unique(next, hashed.drop_first());
        }
    }
}

/// In a signature that the parser accepts, no name stands twice among
/// the notations.
pub proof fn lemma_parsed_names_unique(input: Seq<u8>)
    ensures
        signature_spec(input) matches Ok(sig) ==> names_unique(sig.notations),
{
    if let Ok(sig) = signature_spec(input) {
        if SignatureVersion::of_id(input[0]) == Some(SignatureVersion::V4) {
            let hashed_len = be_u16_of(input.subrange(4, 6));
            let hashed = subpackets_spec(input.subrange(6, 6 + hashed_len))->Ok_0;
            let start = SignatureModel::initial(
                SignatureVersion::V4,
                SignatureType::of_id(input[1])->0,
                PublicKeyAlgorithm::of_id(input[2])->0,
                HashAlgorithm::of_id(input[3])->0,
            );
            lemma_collate_keeps_names_unique(start, hashed);
        }
    }
}

} // verus!

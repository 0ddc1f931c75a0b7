//! The parser of signature packets.

use vstd::prelude::*;
use vstd::slice::{slice_subrange, slice_to_vec};
use crate::crypto::hash::HashAlgorithm;
use crate::crypto::sym::SymmetricKeyAlgorithm;
use crate::errors::Error;
use crate::packet::ids::{
    CompressionAlgorithm,
    PublicKeyAlgorithm,
    RevocationCode,
    SignatureType,
    SignatureVersion,
    SubpacketType,
};
use crate::packet::tags::sig_grammar::{
    apply_subpacket,
    collate,
    first_subpacket_spec,
    flat_subpacket_spec,
    leading_compression_algs,
    leading_hash_algs,
    leading_sym_algs,
    name_index,
    notation_spec,
    notations_insert,
    signature_end,
    signature_spec,
    subpacket_spec,
    subpackets_spec,
    text_of,
};
use crate::packet::types::{
    RevocationKey,
    Signature,
    SignatureModel,
    Subpacket,
    SubpacketModel,
    notations_model,
    subpackets_model,
};
use crate::util::{array_from, be_u16, be_u32, packet_length, utf8_string};

verus! {

/// The outcome of reading a subpacket, over plain sequences.
pub open spec fn subpacket_result(r: Result<Subpacket, Error>) -> Result<SubpacketModel, Error> {
    match r {
        Ok(p) => Ok(p.model()),
        Err(e) => Err(e),
    }
}

/// The outcome of reading a list of subpackets, over plain sequences.
pub open spec fn subpackets_result(r: Result<Vec<Subpacket>, Error>) -> Result<
    Seq<SubpacketModel>,
    Error,
> {
    match r {
        Ok(v) => Ok(subpackets_model(v@)),
        Err(e) => Err(e),
    }
}

/// The outcome of reading a signature, over plain sequences.
pub open spec fn signature_result(r: Result<Signature, Error>) -> Result<SignatureModel, Error> {
    match r {
        Ok(sig) => Ok(sig.model()),
        Err(e) => Err(e),
    }
}

/// Reads octets as text.
fn text(body: &[u8]) -> (out: Result<String, Error>)
    ensures
        match out {
            Ok(s) => text_of(body@) == Ok::<Seq<char>, Error>(s@),
            Err(e) => text_of(body@) == Err::<Seq<char>, Error>(e),
        },
{
    match utf8_string(body) {
        Some(s) => Ok(s),
        None => Err(Error::InvalidUtf8),
    }
}

/// Reads the ciphers that the body of a preferences subpacket lists.
fn pref_sym_alg(body: &[u8]) -> (out: Vec<SymmetricKeyAlgorithm>)
    ensures
        out@ == leading_sym_algs(body@),
{
    let mut out: Vec<SymmetricKeyAlgorithm> = Vec::new();
    let mut i: usize = 0;
    proof {
        assert(body@.subrange(0, body@.len() as int) =~= body@);
    }
    while i < body.len()
        invariant
            i <= body@.len(),
            leading_sym_algs(body@) == out@ + leading_sym_algs(
                body@.subrange(i as int, body@.len() as int),
            ),
        decreases body@.len() - i,
    {
        let ghost tail = body@.subrange(i as int, body@.len() as int);
        match SymmetricKeyAlgorithm::from_u8(body[i]) {
            Some(alg) => {
                proof {
                    assert(tail.drop_first() =~= body@.subrange(i + 1, body@.len() as int));
                }
                out.push(alg);
            },
            None => {
                return out;
            },
        }
        i = i + 1;
    }
    out
}

/// Reads the hashes that the body of a preferences subpacket lists.
fn pref_hash_alg(body: &[u8]) -> (out: Vec<HashAlgorithm>)
    ensures
        out@ == leading_hash_algs(body@),
{
    let mut out: Vec<HashAlgorithm> = Vec::new();
    let mut i: usize = 0;
    proof {
        assert(body@.subrange(0, body@.len() as int) =~= body@);
    }
    while i < body.len()
        invariant
            i <= body@.len(),
            leading_hash_algs(body@) == out@ + leading_hash_algs(
                body@.subrange(i as int, body@.len() as int),
            ),
        decreases body@.len() - i,
    {
        let ghost tail = body@.subrange(i as int, body@.len() as int);
        match HashAlgorithm::from_u8(body[i]) {
            Some(alg) => {
                proof {
                    assert(tail.drop_first() =~= body@.subrange(i + 1, body@.len() as int));
                }
                out.push(alg);
            },
            None => {
                return out;
            },
        }
        i = i + 1;
    }
    out
}

/// Reads the compression algorithms that the body of a preferences
/// subpacket lists.
fn pref_com_alg(body: &[u8]) -> (out: Vec<CompressionAlgorithm>)
    ensures
        out@ == leading_compression_algs(body@),
{
    let mut out: Vec<CompressionAlgorithm> = Vec::new();
    let mut i: usize = 0;
    proof {
        assert(body@.subrange(0, body@.len() as int) =~= body@);
    }
    while i < body.len()
        invariant
            i <= body@.len(),
            leading_compression_algs(body@) == out@ + leading_compression_algs(
                body@.subrange(i as int, body@.len() as int),
            ),
        decreases body@.len() - i,
    {
        let ghost tail = body@.subrange(i as int, body@.len() as int);
        match CompressionAlgorithm::from_u8(body[i]) {
            Some(alg) => {
                proof {
                    assert(tail.drop_first() =~= body@.subrange(i + 1, body@.len() as int));
                }
                out.push(alg);
            },
            None => {
                return out;
            },
        }
        i = i + 1;
    }
    out
}

/// Reads the body of a notation subpacket.
fn notation_data(body: &[u8]) -> (out: Result<Subpacket, Error>)
    ensures
        subpacket_result(out) == notation_spec(body@),
{
    if body.len() < 8 {
        return Err(Error::InvalidInput);
    }
    if body[0] != 0x80 || body[1] != 0 || body[2] != 0 || body[3] != 0 {
        return Err(Error::InvalidInput);
    }
    assert(body@.subrange(0, 4) =~= seq![0x80u8, 0u8, 0u8, 0u8]);
    let name_len = be_u16(body, 4) as usize;
    let value_len = be_u16(body, 6) as usize;
    if body.len() - 8 < name_len || body.len() - 8 - name_len < value_len {
        return Err(Error::InvalidInput);
    }
    let name = match text(slice_subrange(body, 8, 8 + name_len)) {
        Ok(s) => s,
        Err(e) => {
            return Err(e);
        },
    };
    let value = match text(slice_subrange(body, 8 + name_len, 8 + name_len + value_len)) {
        Ok(s) => s,
        Err(e) => {
            return Err(e);
        },
    };
    Ok(Subpacket::Notation(name, value))
}

/// Whether a kind of subpacket holds a time or a flag.
pub open spec fn reads_number(typ: SubpacketType) -> bool {
    typ == SubpacketType::SignatureCreationTime || typ == SubpacketType::SignatureExpirationTime
        || typ == SubpacketType::KeyExpirationTime || typ == SubpacketType::Revocable || typ
        == SubpacketType::PrimaryUserID
}

/// Whether a kind of subpacket holds a list of algorithms or a string of
/// octets.
pub open spec fn reads_list(typ: SubpacketType) -> bool {
    typ == SubpacketType::PreferredSymmetricAlgorithms || typ
        == SubpacketType::PreferredHashAlgorithms || typ
        == SubpacketType::PreferredCompressionAlgorithms || typ
        == SubpacketType::KeyServerPreferences || typ == SubpacketType::KeyFlags || typ
        == SubpacketType::Features
}

/// Whether a kind of subpacket holds text.
pub open spec fn reads_text(typ: SubpacketType) -> bool {
    typ == SubpacketType::NotationData || typ == SubpacketType::PreferredKeyServer || typ
        == SubpacketType::SignersUserID || typ == SubpacketType::RevocationReason
}

/// Whether a kind of subpacket names a key.
pub open spec fn reads_key(typ: SubpacketType) -> bool {
    typ == SubpacketType::Issuer || typ == SubpacketType::RevocationKey
}

/// Reads the body of a subpacket that holds a time or a flag.
fn number_subpacket(typ: SubpacketType, body: &[u8]) -> (out: Result<Subpacket, Error>)
    requires
        reads_number(typ),
    ensures
        subpacket_result(out) == flat_subpacket_spec(typ, body@),
{
    reveal(flat_subpacket_spec);
    match typ {
        SubpacketType::SignatureCreationTime => {
            if body.len() < 4 {
                Err(Error::InvalidInput)
            } else {
                Ok(Subpacket::SignatureCreationTime(be_u32(body, 0)))
            }
        },
        SubpacketType::SignatureExpirationTime => {
            if body.len() < 4 {
                Err(Error::InvalidInput)
            } else {
                Ok(Subpacket::SignatureExpirationTime(be_u32(body, 0)))
            }
        },
        SubpacketType::KeyExpirationTime => {
            if body.len() < 4 {
                Err(Error::InvalidInput)
            } else {
                Ok(Subpacket::KeyExpirationTime(be_u32(body, 0)))
            }
        },
        SubpacketType::Revocable => {
            if body.len() < 1 {
                Err(Error::InvalidInput)
            } else {
                Ok(Subpacket::Revocable(body[0] == 1))
            }
        },
        _ => {
            if body.len() < 1 {
                Err(Error::InvalidInput)
            } else {
                Ok(Subpacket::IsPrimary(body[0] == 1))
            }
        },
    }
}

/// Reads the body of a subpacket that holds a list of algorithms or a
/// string of octets.
fn list_subpacket(typ: SubpacketType, body: &[u8]) -> (out: Result<Subpacket, Error>)
    requires
        reads_list(typ),
    ensures
        subpacket_result(out) == flat_subpacket_spec(typ, body@),
{
    reveal(flat_subpacket_spec);
    match typ {
        SubpacketType::PreferredSymmetricAlgorithms => {
            let algs = pref_sym_alg(body);
            if algs.len() == 0 {
                Err(Error::InvalidInput)
            } else {
                Ok(Subpacket::PreferredSymmetricAlgorithms(algs))
            }
        },
        SubpacketType::PreferredHashAlgorithms => {
            let algs = pref_hash_alg(body);
            if algs.len() == 0 {
                Err(Error::InvalidInput)
            } else {
                Ok(Subpacket::PreferredHashAlgorithms(algs))
            }
        },
        SubpacketType::PreferredCompressionAlgorithms => {
            let algs = pref_com_alg(body);
            if algs.len() == 0 {
                Err(Error::InvalidInput)
            } else {
                Ok(Subpacket::PreferredCompressionAlgorithms(algs))
            }
        },
        SubpacketType::KeyServerPreferences => Ok(
            Subpacket::KeyServerPreferences(slice_to_vec(body)),
        ),
        SubpacketType::KeyFlags => Ok(Subpacket::KeyFlags(slice_to_vec(body))),
        _ => Ok(Subpacket::Features(slice_to_vec(body))),
    }
}

/// Reads the body of a subpacket that holds text.
fn text_subpacket(typ: SubpacketType, body: &[u8]) -> (out: Result<Subpacket, Error>)
    requires
        reads_text(typ),
    ensures
        subpacket_result(out) == flat_subpacket_spec(typ, body@),
{
    reveal(flat_subpacket_spec);
    match typ {
        SubpacketType::NotationData => notation_data(body),
        SubpacketType::PreferredKeyServer => match text(body) {
            Ok(s) => Ok(Subpacket::PreferredKeyServer(s)),
            Err(e) => Err(e),
        },
        SubpacketType::SignersUserID => match text(body) {
            Ok(s) => Ok(Subpacket::SignersUserID(s)),
            Err(e) => Err(e),
        },
        _ => {
            if body.len() < 1 {
                return Err(Error::InvalidInput);
            }
            match RevocationCode::from_u8(body[0]) {
                Some(code) => Ok(
                    Subpacket::RevocationReason(
                        code,
                        slice_to_vec(slice_subrange(body, 1, body.len())),
                    ),
                ),
                None => Err(Error::InvalidInput),
            }
        },
    }
}

/// Reads the body of a subpacket that names a key.
fn key_subpacket(typ: SubpacketType, body: &[u8]) -> (out: Result<Subpacket, Error>)
    requires
        reads_key(typ),
    ensures
        subpacket_result(out) == flat_subpacket_spec(typ, body@),
{
    reveal(flat_subpacket_spec);
    match typ {
        SubpacketType::Issuer => {
            if body.len() < 8 {
                Err(Error::InvalidInput)
            } else {
                Ok(Subpacket::Issuer(array_from::<8>(body, 0)))
            }
        },
        _ => {
            if body.len() < 22 {
                return Err(Error::InvalidInput);
            }
            match PublicKeyAlgorithm::from_u8(body[1]) {
                Some(alg) => Ok(Subpacket::RevocationKey(body[0], alg, array_from::<20>(body, 2))),
                None => Err(Error::InvalidInput),
            }
        },
    }
}

/// The kinds that are known but not read are refused.
proof fn lemma_unimplemented_kinds(typ: SubpacketType, body: Seq<u8>)
    requires
        !reads_number(typ),
        !reads_list(typ),
        !reads_text(typ),
        !reads_key(typ),
        typ != SubpacketType::EmbeddedSignature,
    ensures
        flat_subpacket_spec(typ, body) == Err::<SubpacketModel, Error>(Error::Unimplemented),
{
    reveal(flat_subpacket_spec);
}

/// Reads the body of a subpacket of the kind `typ`.
pub fn subpacket(typ: SubpacketType, body: &[u8]) -> (out: Result<Subpacket, Error>)
    ensures
        subpacket_result(out) == subpacket_spec(typ, body@),
    decreases body@.len(), 2nat,
{
    match typ {
        SubpacketType::SignatureCreationTime => number_subpacket(typ, body),
        SubpacketType::SignatureExpirationTime => number_subpacket(typ, body),
        SubpacketType::ExportableCertification => {
            proof {
                lemma_unimplemented_kinds(typ, body@);
            }
            Err(Error::Unimplemented)
        },
        SubpacketType::TrustSignature => {
            proof {
                lemma_unimplemented_kinds(typ, body@);
            }
            Err(Error::Unimplemented)
        },
        SubpacketType::RegularExpression => {
            proof {
                lemma_unimplemented_kinds(typ, body@);
            }
            Err(Error::Unimplemented)
        },
        SubpacketType::Revocable => number_subpacket(typ, body),
        SubpacketType::KeyExpirationTime => number_subpacket(typ, body),
        SubpacketType::PreferredSymmetricAlgorithms => list_subpacket(typ, body),
        SubpacketType::RevocationKey => key_subpacket(typ, body),
        SubpacketType::Issuer => key_subpacket(typ, body),
        SubpacketType::NotationData => text_subpacket(typ, body),
        SubpacketType::PreferredHashAlgorithms => list_subpacket(typ, body),
        SubpacketType::PreferredCompressionAlgorithms => list_subpacket(typ, body),
        SubpacketType::KeyServerPreferences => list_subpacket(typ, body),
        SubpacketType::PreferredKeyServer => text_subpacket(typ, body),
        SubpacketType::PrimaryUserID => number_subpacket(typ, body),
        SubpacketType::PolicyURI => {
            proof {
                lemma_unimplemented_kinds(typ, body@);
            }
            Err(Error::Unimplemented)
        },
        SubpacketType::KeyFlags => list_subpacket(typ, body),
        SubpacketType::SignersUserID => text_subpacket(typ, body),
        SubpacketType::RevocationReason => text_subpacket(typ, body),
        SubpacketType::Features => list_subpacket(typ, body),
        SubpacketType::SignatureTarget => {
            proof {
                lemma_unimplemented_kinds(typ, body@);
            }
            Err(Error::Unimplemented)
        },
        SubpacketType::EmbeddedSignature => match parser(body) {
            Ok(sig) => Ok(Subpacket::EmbeddedSignature(Box::new(sig))),
            Err(e) => Err(e),
        },
    }
}

/// Reads the subpacket at the start of a region; gives it together with
/// the number of octets that it takes up.
pub fn first_subpacket(region: &[u8]) -> (out: Result<(Subpacket, usize), Error>)
    ensures
        match out {
            Ok((p, used)) => first_subpacket_spec(region@) == Ok::<(SubpacketModel, int), Error>(
                (p.model(), used as int),
            ) && 0 < used <= region@.len(),
            Err(e) => first_subpacket_spec(region@) == Err::<(SubpacketModel, int), Error>(e),
        },
    decreases region@.len(), 3nat,
{
    let total = region.len();
    let (len, used) = match packet_length(region) {
        Some(r) => r,
        None => {
            return Err(Error::InvalidInput);
        },
    };
    if len < 1 || total < used || total - used < len {
        return Err(Error::InvalidInput);
    }
    let typ = match SubpacketType::from_u8(region[used]) {
        Some(t) => t,
        None => {
            return Err(Error::InvalidInput);
        },
    };
    match subpacket(typ, slice_subrange(region, used + 1, used + len)) {
        Ok(p) => Ok((p, used + len)),
        Err(e) => Err(e),
    }
}

/// Reads the subpackets of a region.
pub fn subpackets(region: &[u8]) -> (out: Result<Vec<Subpacket>, Error>)
    ensures
        subpackets_result(out) == subpackets_spec(region@),
    decreases region@.len(), 4nat,
{
    let mut out: Vec<Subpacket> = Vec::new();
    let total = region.len();
    let mut pos: usize = 0;
    proof {
        assert(region@.subrange(0, total as int) =~= region@);
    }
    while pos < total
        invariant
            pos <= total == region@.len(),
            subpackets_spec(region@) == (match subpackets_spec(
                region@.subrange(pos as int, total as int),
            ) {
                Ok(rest) => Ok::<Seq<SubpacketModel>, Error>(subpackets_model(out@) + rest),
                Err(e) => Err(e),
            }),
        decreases total - pos,
    {
        let ghost tail = region@.subrange(pos as int, total as int);
        let (p, used) = match first_subpacket(slice_subrange(region, pos, total)) {
            Ok(r) => r,
            Err(e) => {
                return Err(e);
            },
        };
        let ghost before = out@;
        out.push(p);
        proof {
            let after = region@.subrange(pos + used, total as int);
            assert(tail.subrange(used as int, tail.len() as int) =~= after);
            assert(subpackets_model(out@) == subpackets_model(before).push(p.model()));
            if let Ok(rest) = subpackets_spec(after) {
                assert(subpackets_model(before) + (seq![p.model()] + rest) =~= subpackets_model(
                    before,
                ).push(p.model()) + rest);
            }
        }
        pos = pos + used;
    }
    Ok(out)
}

/// Parses a signature packet.
pub fn parser(input: &[u8]) -> (out: Result<Signature, Error>)
    ensures
        signature_result(out) == signature_spec(input@),
    decreases input@.len(), 1nat,
{
    if input.len() < 1 {
        return Err(Error::InvalidInput);
    }
    match SignatureVersion::from_u8(input[0]) {
        None => Err(Error::InvalidInput),
        Some(SignatureVersion::V2) => v2_parser(input),
        Some(SignatureVersion::V3) => v3_parser(input),
        Some(SignatureVersion::V4) => v4_parser(input),
    }
}

/// Parses a signature packet of version 2, of which only the kind is
/// read.
fn v2_parser(input: &[u8]) -> (out: Result<Signature, Error>)
    requires
        input@.len() >= 1,
        input@[0] == 2,
    ensures
        signature_result(out) == signature_spec(input@),
{
    if input.len() < 3 || input[1] != 5 {
        return Err(Error::InvalidInput);
    }
    match SignatureType::from_u8(input[2]) {
        Some(typ) => Ok(
            Signature::new(SignatureVersion::V2, typ, PublicKeyAlgorithm::RSA, HashAlgorithm::SHA1),
        ),
        None => Err(Error::InvalidInput),
    }
}

/// Parses a signature packet of version 3, of which only the kind is
/// read.
fn v3_parser(input: &[u8]) -> (out: Result<Signature, Error>)
    requires
        input@.len() >= 1,
        input@[0] == 3,
    ensures
        signature_result(out) == signature_spec(input@),
{
    if input.len() < 3 || input[1] != 5 {
        return Err(Error::InvalidInput);
    }
    match SignatureType::from_u8(input[2]) {
        Some(typ) => Ok(
            Signature::new(SignatureVersion::V3, typ, PublicKeyAlgorithm::RSA, HashAlgorithm::SHA1),
        ),
        None => Err(Error::InvalidInput),
    }
}

/// The first index at which a name stands is the index of that name.
proof fn lemma_name_index(notations: Seq<(Seq<char>, Seq<char>)>, name: Seq<char>, i: int)
    requires
        0 <= i <= notations.len(),
        forall|j: int| 0 <= j < i ==> notations[j].0 != name,
        i < notations.len() ==> notations[i].0 == name,
    ensures
        name_index(notations, name) == i,
    decreases notations.len(),
{
    if notations.len() > 0 && notations[0].0 != name {
        lemma_name_index(notations.drop_first(), name, i - 1);
    }
}

/// Puts a notation in the place of the one of the same name, or at the
/// end.
fn insert_notation(notations: &mut Vec<(String, String)>, name: String, value: String)
    ensures
        notations_model(final(notations)@) == notations_insert(
            notations_model(old(notations)@),
            name@,
            value@,
        ),
{
    let ghost before = notations_model(notations@);
    let total = notations.len();
    let mut i: usize = 0;
    while i < total && !(notations[i].0 == name)
        invariant
            i <= total == notations@.len(),
            before == notations_model(notations@),
            forall|j: int| 0 <= j < i ==> before[j].0 != name@,
        decreases total - i,
    {
        i = i + 1;
    }
    proof {
        lemma_name_index(before, name@, i as int);
    }
    if i < total {
        notations[i] = (name, value);
    } else {
        notations.push((name, value));
    }
}

/// Whether a subpacket holds a time or a flag.
pub open spec fn is_small_value(p: Subpacket) -> bool {
    p is SignatureCreationTime || p is SignatureExpirationTime || p is KeyExpirationTime
        || p is IsPrimary || p is Revocable
}

/// Whether a subpacket names a key.
pub open spec fn is_key_reference(p: Subpacket) -> bool {
    p is Issuer || p is RevocationKey
}

/// Whether a subpacket holds a list of algorithms or a string of
/// octets.
pub open spec fn is_list(p: Subpacket) -> bool {
    p is PreferredSymmetricAlgorithms || p is PreferredHashAlgorithms
        || p is PreferredCompressionAlgorithms || p is KeyServerPreferences || p is KeyFlags
        || p is Features
}

/// Puts a time or a flag into the signature.
fn apply_small_value(sig: Signature, p: Subpacket) -> (out: Signature)
    requires
        is_small_value(p),
    ensures
        apply_subpacket(sig.model(), p.model()) == Ok::<SignatureModel, Error>(out.model()),
{
    reveal(apply_subpacket);
    let mut sig = sig;
    match p {
        Subpacket::SignatureCreationTime(t) => {
            sig.created = Some(t);
        },
        Subpacket::SignatureExpirationTime(t) => {
            sig.signature_expiration_time = Some(t);
        },
        Subpacket::KeyExpirationTime(t) => {
            sig.key_expiration_time = Some(t);
        },
        Subpacket::IsPrimary(b) => {
            sig.is_primary = b;
        },
        Subpacket::Revocable(b) => {
            sig.is_revocable = b;
        },
        _ => {},
    }
    sig
}

/// Puts the name of a key into the signature.
fn apply_key_reference(sig: Signature, p: Subpacket) -> (out: Signature)
    requires
        is_key_reference(p),
    ensures
        apply_subpacket(sig.model(), p.model()) == Ok::<SignatureModel, Error>(out.model()),
{
    reveal(apply_subpacket);
    let mut sig = sig;
    match p {
        Subpacket::Issuer(id) => {
            sig.issuer = Some(id);
        },
        Subpacket::RevocationKey(class, algorithm, fingerprint) => {
            sig.revocation_key = Some(RevocationKey { class, algorithm, fingerprint });
        },
        _ => {},
    }
    sig
}

/// Puts a list of algorithms or a string of octets into the signature.
fn apply_list(sig: Signature, p: Subpacket) -> (out: Signature)
    requires
        is_list(p),
    ensures
        apply_subpacket(sig.model(), p.model()) == Ok::<SignatureModel, Error>(out.model()),
{
    reveal(apply_subpacket);
    let mut sig = sig;
    match p {
        Subpacket::PreferredSymmetricAlgorithms(list) => {
            let mut list = list;
            sig.preferred_symmetric_algs.append(&mut list);
        },
        Subpacket::PreferredHashAlgorithms(list) => {
            let mut list = list;
            sig.preferred_hash_algs.append(&mut list);
        },
        Subpacket::PreferredCompressionAlgorithms(list) => {
            let mut list = list;
            sig.preferred_compression_algs.append(&mut list);
        },
        Subpacket::KeyServerPreferences(f) => {
            sig.key_server_prefs = f;
        },
        Subpacket::KeyFlags(f) => {
            sig.key_flags = f;
        },
        Subpacket::Features(f) => {
            sig.features = f;
        },
        _ => {},
    }
    sig
}

/// Puts a text, a notation or an embedded signature into the signature.
fn apply_text(sig: Signature, p: Subpacket) -> (out: Result<Signature, Error>)
    requires
        !is_small_value(p),
        !is_key_reference(p),
        !is_list(p),
    ensures
        signature_result(out) == apply_subpacket(sig.model(), p.model()),
{
    reveal(apply_subpacket);
    let mut sig = sig;
    match p {
        Subpacket::RevocationReason(code, body) => {
            match text(body.as_slice()) {
                Ok(reason) => {
                    sig.revocation_reason_code = Some(code);
                    sig.revocation_reason_string = Some(reason);
                },
                Err(e) => {
                    return Err(e);
                },
            }
        },
        Subpacket::EmbeddedSignature(inner) => {
            sig.embedded_signature = Some(inner);
        },
        Subpacket::PreferredKeyServer(server) => {
            sig.preferred_key_server = Some(server);
        },
        Subpacket::Notation(name, value) => {
            insert_notation(&mut sig.notations, name, value);
        },
        Subpacket::SignersUserID(u) => {
            sig.signers_userid = Some(u);
        },
        _ => {},
    }
    Ok(sig)
}

/// Puts what one hashed subpacket says into the signature.
fn apply(sig: Signature, p: Subpacket) -> (out: Result<Signature, Error>)
    ensures
        signature_result(out) == apply_subpacket(sig.model(), p.model()),
{
    match p {
        Subpacket::SignatureCreationTime(_) => Ok(apply_small_value(sig, p)),
        Subpacket::SignatureExpirationTime(_) => Ok(apply_small_value(sig, p)),
        Subpacket::KeyExpirationTime(_) => Ok(apply_small_value(sig, p)),
        Subpacket::Issuer(_) => Ok(apply_key_reference(sig, p)),
        Subpacket::IsPrimary(_) => Ok(apply_small_value(sig, p)),
        Subpacket::Revocable(_) => Ok(apply_small_value(sig, p)),
        Subpacket::RevocationKey(_, _, _) => Ok(apply_key_reference(sig, p)),
        Subpacket::PreferredSymmetricAlgorithms(_) => Ok(apply_list(sig, p)),
        Subpacket::PreferredHashAlgorithms(_) => Ok(apply_list(sig, p)),
        Subpacket::PreferredCompressionAlgorithms(_) => Ok(apply_list(sig, p)),
        Subpacket::KeyServerPreferences(_) => Ok(apply_list(sig, p)),
        Subpacket::KeyFlags(_) => Ok(apply_list(sig, p)),
        Subpacket::Features(_) => Ok(apply_list(sig, p)),
        _ => apply_text(sig, p),
    }
}

/// Gathers the hashed subpackets into the signature, in their order.
#[verifier::loop_isolation(false)]
fn collate_hashed(sig: Signature, hashed: Vec<Subpacket>) -> (out: Result<Signature, Error>)
    ensures
        signature_result(out) == collate(sig.model(), subpackets_model(hashed@)),
{
    let ghost all = subpackets_model(hashed@);
    let ghost start = sig.model();
    let mut hashed = hashed;
    let mut stack: Vec<Subpacket> = Vec::new();
    while hashed.len() > 0
        invariant
            stack@.len() + hashed@.len() == all.len(),
            forall|i: int| 0 <= i < hashed@.len() ==> hashed@[i].model() == all[i],
            forall|j: int| 0 <= j < stack@.len() ==> stack@[j].model() == all[all.len() - 1 - j],
        decreases hashed@.len(),
    {
        match hashed.pop() {
            Some(p) => {
                stack.push(p);
            },
            None => {},
        }
    }
    let mut sig = sig;
    proof {
        assert(all.subrange(0, all.len() as int) =~= all);
    }
    while stack.len() > 0
        invariant
            stack@.len() <= all.len(),
            forall|j: int| 0 <= j < stack@.len() ==> stack@[j].model() == all[all.len() - 1 - j],
            collate(start, all) == collate(
                sig.model(),
                all.subrange(all.len() - stack@.len(), all.len() as int),
            ),
        decreases stack@.len(),
    {
        let ghost pending = all.subrange(all.len() - stack@.len(), all.len() as int);
        match stack.pop() {
            Some(p) => {
                proof {
                    assert(pending.drop_first() =~= all.subrange(
                        all.len() - stack@.len(),
                        all.len() as int,
                    ));
                }
                sig =
                match apply(sig, p) {
                    Ok(next) => next,
                    Err(e) => {
                        return Err(e);
                    },
                };
            },
            None => {},
        }
    }
    Ok(sig)
}

/// Parses a signature packet of version 4.
fn v4_parser(input: &[u8]) -> (out: Result<Signature, Error>)
    requires
        input@.len() >= 1,
        input@[0] == 4,
    ensures
        signature_result(out) == signature_spec(input@),
    decreases input@.len(), 0nat,
{
    let total = input.len();
    if total < 6 {
        return Err(Error::InvalidInput);
    }
    let typ = match SignatureType::from_u8(input[1]) {
        Some(t) => t,
        None => {
            return Err(Error::InvalidInput);
        },
    };
    let pub_alg = match PublicKeyAlgorithm::from_u8(input[2]) {
        Some(a) => a,
        None => {
            return Err(Error::InvalidInput);
        },
    };
    let hash_alg = match HashAlgorithm::from_u8(input[3]) {
        Some(a) => a,
        None => {
            return Err(Error::InvalidInput);
        },
    };
    let hsub_len = be_u16(input, 4) as usize;
    if total - 6 < hsub_len {
        return Err(Error::InvalidInput);
    }
    let hsub = match subpackets(slice_subrange(input, 6, 6 + hsub_len)) {
        Ok(v) => v,
        Err(e) => {
            return Err(e);
        },
    };
    let at = 6 + hsub_len;
    if total - at < 2 {
        return Err(Error::InvalidInput);
    }
    let usub_len = be_u16(input, at) as usize;
    if total - at - 2 < usub_len {
        return Err(Error::InvalidInput);
    }
    let usub = match subpackets(slice_subrange(input, at + 2, at + 2 + usub_len)) {
        Ok(v) => v,
        Err(e) => {
            return Err(e);
        },
    };
    let sig = Signature::new(SignatureVersion::V4, typ, pub_alg, hash_alg);
    match collate_hashed(sig, hsub) {
        Ok(sig) => {
            let mut sig = sig;
            sig.unhashed_subpackets = usub;
            Ok(sig)
        },
        Err(e) => Err(e),
    }
}

/// Parses a signature packet and hands back what stands behind the
/// signature: in version 4 the first octets of the signed digest and the
/// integers of the signature.
pub fn parse_with_rest(input: &[u8]) -> (out: Result<(Signature, &[u8]), Error>)
    ensures
        match out {
            Ok((sig, rest)) => signature_spec(input@) == Ok::<SignatureModel, Error>(sig.model())
                && 0 <= signature_end(input@) <= input@.len() && rest@ == input@.subrange(
                signature_end(input@),
                input@.len() as int,
            ),
            Err(e) => signature_spec(input@) == Err::<SignatureModel, Error>(e),
        },
{
    let sig = match parser(input) {
        Ok(sig) => sig,
        Err(e) => {
            return Err(e);
        },
    };
    let end: usize = if input[0] == 4 {
        let hashed_len = be_u16(input, 4) as usize;
        8 + hashed_len + be_u16(input, 6 + hashed_len) as usize
    } else {
        3
    };
    Ok((sig, slice_subrange(input, end, input.len())))
}

} // verus!

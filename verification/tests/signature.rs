use pgp::crypto::hash::HashAlgorithm;
use pgp::crypto::sym::SymmetricKeyAlgorithm;
use pgp::errors::Error;
use pgp::packet::ids::{
    CompressionAlgorithm, KeyFlag, PublicKeyAlgorithm, RevocationCode, SignatureType,
    SignatureVersion, SubpacketType,
};
use pgp::packet::tags::sig::{first_subpacket, parse_with_rest, parser, subpacket, subpackets};
use pgp::packet::types::{Signature, Subpacket};

fn sub(typ: u8, body: &[u8]) -> Vec<u8> {
    let mut out = vec![(body.len() + 1) as u8, typ];
    out.extend_from_slice(body);
    out
}

fn v4(typ: u8, pk: u8, hash: u8, hashed: &[u8], unhashed: &[u8]) -> Vec<u8> {
    let mut out = vec![4, typ, pk, hash];
    out.extend_from_slice(&(hashed.len() as u16).to_be_bytes());
    out.extend_from_slice(hashed);
    out.extend_from_slice(&(unhashed.len() as u16).to_be_bytes());
    out.extend_from_slice(unhashed);
    // the quick check and one integer, which the parser leaves alone
    out.extend_from_slice(&[0xAB, 0xCD, 0x00, 0x08, 0xFF]);
    out
}

fn notation(name: &[u8], value: &[u8]) -> Vec<u8> {
    let mut body = vec![0x80, 0, 0, 0];
    body.extend_from_slice(&(name.len() as u16).to_be_bytes());
    body.extend_from_slice(&(value.len() as u16).to_be_bytes());
    body.extend_from_slice(name);
    body.extend_from_slice(value);
    body
}

#[test]
fn v4_signature_with_many_subpackets() {
    let mut hashed = Vec::new();
    hashed.extend(sub(2, &[0x5B, 0x1C, 0x2A, 0x00]));
    hashed.extend(sub(27, &[0x03]));
    hashed.extend(sub(11, &[9, 8, 7]));
    hashed.extend(sub(21, &[10, 8]));
    hashed.extend(sub(22, &[2, 1, 0]));
    hashed.extend(sub(30, &[0x01]));
    hashed.extend(sub(23, &[0x80]));
    hashed.extend(sub(9, &[0x00, 0x01, 0x51, 0x80]));
    hashed.extend(sub(3, &[0x00, 0x00, 0x0E, 0x10]));
    hashed.extend(sub(25, &[1]));
    hashed.extend(sub(7, &[0]));
    hashed.extend(sub(24, b"hkps://keys.example.org"));
    hashed.extend(sub(28, "älice@example.org".as_bytes()));
    hashed.extend(sub(20, &notation(b"name@example.org", b"value")));
    let mut revocation_key = vec![0x80, 17];
    revocation_key.extend_from_slice(&[0x5A; 20]);
    hashed.extend(sub(12, &revocation_key));
    hashed.extend(sub(29, b"\x02stolen"));
    let mut unhashed = Vec::new();
    unhashed.extend(sub(16, &[1, 2, 3, 4, 5, 6, 7, 8]));
    unhashed.extend(sub(27, &[0x20]));

    let sig = parser(&v4(0x13, 1, 8, &hashed, &unhashed)).unwrap();
    assert_eq!(sig.version, SignatureVersion::V4);
    assert_eq!(sig.typ, SignatureType::CertPositive);
    assert_eq!(sig.pub_alg, PublicKeyAlgorithm::RSA);
    assert_eq!(sig.hash_alg, HashAlgorithm::SHA2_256);
    assert_eq!(sig.created, Some(0x5B1C2A00));
    assert_eq!(sig.issuer, None);
    assert_eq!(sig.key_flags, vec![0x03]);
    assert_eq!(
        sig.preferred_symmetric_algs,
        vec![
            SymmetricKeyAlgorithm::AES256,
            SymmetricKeyAlgorithm::AES192,
            SymmetricKeyAlgorithm::AES128
        ]
    );
    assert_eq!(
        sig.preferred_hash_algs,
        vec![HashAlgorithm::SHA2_512, HashAlgorithm::SHA2_256]
    );
    assert_eq!(
        sig.preferred_compression_algs,
        vec![
            CompressionAlgorithm::ZLIB,
            CompressionAlgorithm::ZIP,
            CompressionAlgorithm::Uncompressed
        ]
    );
    assert_eq!(sig.features, vec![0x01]);
    assert_eq!(sig.key_server_prefs, vec![0x80]);
    assert_eq!(sig.key_expiration_time, Some(86400));
    assert_eq!(sig.signature_expiration_time, Some(3600));
    assert!(sig.is_primary);
    assert!(!sig.is_revocable);
    assert_eq!(sig.preferred_key_server, Some("hkps://keys.example.org".to_string()));
    assert_eq!(sig.signers_userid, Some("älice@example.org".to_string()));
    assert_eq!(
        sig.notations,
        vec![("name@example.org".to_string(), "value".to_string())]
    );
    let key = sig.revocation_key.unwrap();
    assert_eq!(key.class, 0x80);
    assert_eq!(key.algorithm, PublicKeyAlgorithm::DSA);
    assert_eq!(key.fingerprint, [0x5A; 20]);
    assert_eq!(sig.revocation_reason_code, Some(RevocationCode::KeyCompromised));
    assert_eq!(sig.revocation_reason_string, Some("stolen".to_string()));
    assert!(sig.embedded_signature.is_none());

    assert_eq!(sig.unhashed_subpackets.len(), 2);
    match &sig.unhashed_subpackets[0] {
        Subpacket::Issuer(id) => assert_eq!(id, &[1, 2, 3, 4, 5, 6, 7, 8]),
        other => panic!("unexpected subpacket {:?}", other),
    }
    match &sig.unhashed_subpackets[1] {
        Subpacket::KeyFlags(flags) => assert_eq!(flags, &vec![0x20]),
        other => panic!("unexpected subpacket {:?}", other),
    }
}

#[test]
fn v4_signature_without_subpackets() {
    let sig = parser(&[4, 0x00, 17, 2, 0, 0, 0, 0]).unwrap();
    assert_eq!(sig.version, SignatureVersion::V4);
    assert_eq!(sig.typ, SignatureType::Binary);
    assert_eq!(sig.pub_alg, PublicKeyAlgorithm::DSA);
    assert_eq!(sig.hash_alg, HashAlgorithm::SHA1);
    assert_eq!(sig.created, None);
    assert!(sig.is_revocable);
    assert!(!sig.is_primary);
    assert!(sig.notations.is_empty());
    assert!(sig.unhashed_subpackets.is_empty());
    assert!(sig.preferred_symmetric_algs.is_empty());
}

#[test]
fn v4_signature_with_unimplemented_subpacket() {
    // a policy URI among the hashed subpackets
    let mut hashed = Vec::new();
    hashed.extend(sub(2, &[0, 0, 0, 1]));
    hashed.extend(sub(26, b"https://example.org/policy"));
    let res = parser(&v4(0x10, 1, 8, &hashed, &[]));
    assert!(matches!(res, Err(Error::Unimplemented)));

    for typ in [4u8, 5, 6, 26, 31] {
        let res = parser(&v4(0x10, 1, 8, &sub(typ, &[1]), &[]));
        assert!(matches!(res, Err(Error::Unimplemented)));
        let res = parser(&v4(0x10, 1, 8, &[], &sub(typ, &[1])));
        assert!(matches!(res, Err(Error::Unimplemented)));
    }
}

#[test]
fn v4_signature_with_unknown_subpacket() {
    for typ in [0u8, 1, 8, 10, 33, 100, 255] {
        let res = parser(&v4(0x10, 1, 8, &sub(typ, &[1]), &[]));
        assert!(matches!(res, Err(Error::InvalidInput)));
    }
}

#[test]
fn duplicate_subpackets() {
    let mut hashed = Vec::new();
    hashed.extend(sub(2, &[0, 0, 0, 1]));
    hashed.extend(sub(11, &[9]));
    hashed.extend(sub(27, &[0x01]));
    hashed.extend(sub(20, &notation(b"a", b"one")));
    hashed.extend(sub(20, &notation(b"b", b"two")));
    hashed.extend(sub(2, &[0, 0, 0, 2]));
    hashed.extend(sub(11, &[7, 9]));
    hashed.extend(sub(27, &[0x02]));
    hashed.extend(sub(20, &notation(b"a", b"three")));
    let sig = parser(&v4(0x10, 1, 8, &hashed, &[])).unwrap();
    // a single value is replaced
    assert_eq!(sig.created, Some(2));
    assert_eq!(sig.key_flags, vec![0x02]);
    // preferences are added
    assert_eq!(
        sig.preferred_symmetric_algs,
        vec![
            SymmetricKeyAlgorithm::AES256,
            SymmetricKeyAlgorithm::AES128,
            SymmetricKeyAlgorithm::AES256
        ]
    );
    // a notation replaces the one of its name
    assert_eq!(
        sig.notations,
        vec![
            ("a".to_string(), "three".to_string()),
            ("b".to_string(), "two".to_string())
        ]
    );
}

#[test]
fn embedded_signature() {
    let inner = v4(0x19, 1, 8, &sub(2, &[0, 0, 0, 9]), &[]);
    let hashed = sub(32, &inner);
    let sig = parser(&v4(0x18, 1, 8, &hashed, &sub(32, &[3, 5, 0x19]))).unwrap();
    let embedded: &Signature = sig.embedded_signature.as_ref().unwrap();
    assert_eq!(embedded.version, SignatureVersion::V4);
    assert_eq!(embedded.typ, SignatureType::KeyBinding);
    assert_eq!(embedded.created, Some(9));
    match &sig.unhashed_subpackets[0] {
        Subpacket::EmbeddedSignature(inner) => {
            assert_eq!(inner.version, SignatureVersion::V3);
            assert_eq!(inner.typ, SignatureType::KeyBinding);
            assert_eq!(inner.pub_alg, PublicKeyAlgorithm::RSA);
            assert_eq!(inner.hash_alg, HashAlgorithm::SHA1);
        }
        other => panic!("unexpected subpacket {:?}", other),
    }
    // a broken inner signature breaks the outer one
    let res = parser(&v4(0x18, 1, 8, &sub(32, &[4, 0x19, 1]), &[]));
    assert!(matches!(res, Err(Error::InvalidInput)));
    let bad_inner = v4(0x19, 1, 8, &sub(26, &[1]), &[]);
    let res = parser(&v4(0x18, 1, 8, &sub(32, &bad_inner), &[]));
    assert!(matches!(res, Err(Error::Unimplemented)));
}

#[test]
fn v2_and_v3_signatures() {
    let sig = parser(&[3, 5, 0x01, 9, 9, 9]).unwrap();
    assert_eq!(sig.version, SignatureVersion::V3);
    assert_eq!(sig.typ, SignatureType::Text);
    assert_eq!(sig.pub_alg, PublicKeyAlgorithm::RSA);
    assert_eq!(sig.hash_alg, HashAlgorithm::SHA1);
    assert_eq!(sig.created, None);
    let sig = parser(&[2, 5, 0x00]).unwrap();
    assert_eq!(sig.version, SignatureVersion::V2);
    assert_eq!(sig.typ, SignatureType::Binary);
    assert!(matches!(parser(&[3, 4, 0x01]), Err(Error::InvalidInput)));
    assert!(matches!(parser(&[3, 5]), Err(Error::InvalidInput)));
    assert!(matches!(parser(&[2, 5, 0x03]), Err(Error::InvalidInput)));
}

#[test]
fn malformed_signatures() {
    assert!(matches!(parser(&[]), Err(Error::InvalidInput)));
    for version in [0u8, 1, 5, 6, 255] {
        assert!(matches!(parser(&[version, 5, 0]), Err(Error::InvalidInput)));
    }
    // unknown kind, public-key algorithm, hash
    assert!(matches!(parser(&[4, 0x03, 1, 8, 0, 0, 0, 0]), Err(Error::InvalidInput)));
    assert!(matches!(parser(&[4, 0x00, 4, 8, 0, 0, 0, 0]), Err(Error::InvalidInput)));
    assert!(matches!(parser(&[4, 0x00, 1, 7, 0, 0, 0, 0]), Err(Error::InvalidInput)));
    // truncated
    assert!(matches!(parser(&[4, 0x00, 1, 8, 0]), Err(Error::InvalidInput)));
    assert!(matches!(parser(&[4, 0x00, 1, 8, 0, 0]), Err(Error::InvalidInput)));
    assert!(matches!(parser(&[4, 0x00, 1, 8, 0, 0, 0]), Err(Error::InvalidInput)));
    assert!(matches!(parser(&[4, 0x00, 1, 8, 0, 3, 2, 27]), Err(Error::InvalidInput)));
    assert!(matches!(parser(&[4, 0x00, 1, 8, 0, 0, 0, 3, 2, 27]), Err(Error::InvalidInput)));
    // a subpacket that runs over the end of its region
    assert!(matches!(
        parser(&[4, 0x00, 1, 8, 0, 3, 3, 27, 1, 0, 0]),
        Err(Error::InvalidInput)
    ));
    // a subpacket of length zero
    assert!(matches!(
        parser(&[4, 0x00, 1, 8, 0, 1, 0, 0, 0]),
        Err(Error::InvalidInput)
    ));
}

#[test]
fn subpacket_regions() {
    assert_eq!(subpackets(&[]).unwrap().len(), 0);
    let mut region = Vec::new();
    region.extend(sub(7, &[1]));
    region.extend(sub(25, &[0]));
    let list = subpackets(&region).unwrap();
    assert_eq!(list.len(), 2);
    assert!(matches!(list[0], Subpacket::Revocable(true)));
    assert!(matches!(list[1], Subpacket::IsPrimary(false)));

    // a length in two octets
    let body = vec![0x41u8; 300];
    let mut region = vec![192, 109, 24];
    region.extend_from_slice(&body);
    let list = subpackets(&region).unwrap();
    match &list[0] {
        Subpacket::PreferredKeyServer(s) => assert_eq!(s.len(), 300),
        other => panic!("unexpected subpacket {:?}", other),
    }
    // a length in five octets
    let mut region = vec![255, 0, 0, 0, 3, 27, 1, 2];
    region.extend(sub(7, &[0]));
    let list = subpackets(&region).unwrap();
    assert_eq!(list.len(), 2);
    match &list[0] {
        Subpacket::KeyFlags(f) => assert_eq!(f, &vec![1, 2]),
        other => panic!("unexpected subpacket {:?}", other),
    }
    assert!(matches!(list[1], Subpacket::Revocable(false)));
    assert!(matches!(subpackets(&[192]), Err(Error::InvalidInput)));
    assert!(matches!(subpackets(&[2, 27]), Err(Error::InvalidInput)));
}

#[test]
fn subpacket_bodies() {
    assert!(matches!(
        subpacket(SubpacketType::SignatureCreationTime, &[0, 0, 1, 0, 77]),
        Ok(Subpacket::SignatureCreationTime(256))
    ));
    assert!(matches!(
        subpacket(SubpacketType::SignatureCreationTime, &[0, 0, 1]),
        Err(Error::InvalidInput)
    ));
    assert!(matches!(
        subpacket(SubpacketType::KeyExpirationTime, &[0xff, 0xff, 0xff, 0xff]),
        Ok(Subpacket::KeyExpirationTime(u32::MAX))
    ));
    assert!(matches!(
        subpacket(SubpacketType::Revocable, &[2]),
        Ok(Subpacket::Revocable(false))
    ));
    assert!(matches!(subpacket(SubpacketType::Revocable, &[]), Err(Error::InvalidInput)));
    assert!(matches!(subpacket(SubpacketType::PrimaryUserID, &[]), Err(Error::InvalidInput)));
    assert!(matches!(subpacket(SubpacketType::Issuer, &[1; 7]), Err(Error::InvalidInput)));
    // preferences stop at the first octet that names nothing
    match subpacket(SubpacketType::PreferredSymmetricAlgorithms, &[9, 5, 7]) {
        Ok(Subpacket::PreferredSymmetricAlgorithms(l)) => {
            assert_eq!(l, vec![SymmetricKeyAlgorithm::AES256])
        }
        other => panic!("unexpected result {:?}", other),
    }
    assert!(matches!(
        subpacket(SubpacketType::PreferredSymmetricAlgorithms, &[5, 7]),
        Err(Error::InvalidInput)
    ));
    assert!(matches!(
        subpacket(SubpacketType::PreferredHashAlgorithms, &[]),
        Err(Error::InvalidInput)
    ));
    assert!(matches!(
        subpacket(SubpacketType::PreferredCompressionAlgorithms, &[4]),
        Err(Error::InvalidInput)
    ));
    // text must be valid UTF-8
    assert!(matches!(
        subpacket(SubpacketType::SignersUserID, &[0xff, 0xfe]),
        Err(Error::InvalidUtf8)
    ));
    assert!(matches!(
        subpacket(SubpacketType::PreferredKeyServer, &[0xc3]),
        Err(Error::InvalidUtf8)
    ));
    // revocation keys and reasons
    assert!(matches!(
        subpacket(SubpacketType::RevocationKey, &[0x80; 21]),
        Err(Error::InvalidInput)
    ));
    let mut body = vec![0x80, 99];
    body.extend_from_slice(&[1; 20]);
    assert!(matches!(subpacket(SubpacketType::RevocationKey, &body), Err(Error::InvalidInput)));
    assert!(matches!(
        subpacket(SubpacketType::RevocationReason, &[4, 1]),
        Err(Error::InvalidInput)
    ));
    match subpacket(SubpacketType::RevocationReason, &[32]) {
        Ok(Subpacket::RevocationReason(code, reason)) => {
            assert_eq!(code, RevocationCode::CertUserIdInvalid);
            assert!(reason.is_empty());
        }
        other => panic!("unexpected result {:?}", other),
    }
}

#[test]
fn notation_bodies() {
    match subpacket(SubpacketType::NotationData, &notation(b"k", "wért".as_bytes())) {
        Ok(Subpacket::Notation(name, value)) => {
            assert_eq!(name, "k");
            assert_eq!(value, "wért");
        }
        other => panic!("unexpected result {:?}", other),
    }
    let mut flags = notation(b"k", b"v");
    flags[0] = 0;
    assert!(matches!(subpacket(SubpacketType::NotationData, &flags), Err(Error::InvalidInput)));
    let short = notation(b"key", b"value");
    assert!(matches!(
        subpacket(SubpacketType::NotationData, &short[..short.len() - 1]),
        Err(Error::InvalidInput)
    ));
    assert!(matches!(
        subpacket(SubpacketType::NotationData, &[0x80, 0, 0, 0, 0, 0, 0]),
        Err(Error::InvalidInput)
    ));
    assert!(matches!(
        subpacket(SubpacketType::NotationData, &notation(&[0xff], b"v")),
        Err(Error::InvalidUtf8)
    ));
    assert!(matches!(
        subpacket(SubpacketType::NotationData, &notation(b"k", &[0xc0, 0x80])),
        Err(Error::InvalidUtf8)
    ));
}

#[test]
fn revocation_reason_must_be_text_when_gathered() {
    let hashed = sub(29, &[0, 0xff]);
    assert!(matches!(parser(&v4(0x20, 1, 8, &hashed, &[])), Err(Error::InvalidUtf8)));
    // among the unhashed subpackets the octets are kept as they are
    let sig = parser(&v4(0x20, 1, 8, &[], &hashed)).unwrap();
    match &sig.unhashed_subpackets[0] {
        Subpacket::RevocationReason(code, reason) => {
            assert_eq!(*code, RevocationCode::NoReason);
            assert_eq!(reason, &vec![0xff]);
        }
        other => panic!("unexpected subpacket {:?}", other),
    }
    assert_eq!(sig.revocation_reason_code, None);
}

#[test]
fn identifier_tables() {
    assert_eq!(SignatureVersion::from_u8(4), Some(SignatureVersion::V4));
    assert_eq!(SignatureVersion::from_u8(5), None);
    assert_eq!(SignatureType::from_u8(0x50), Some(SignatureType::ThirdParty));
    assert_eq!(PublicKeyAlgorithm::from_u8(18), Some(PublicKeyAlgorithm::ECDH));
    assert_eq!(PublicKeyAlgorithm::ECDH.to_u8(), 0x12);
    assert_eq!(CompressionAlgorithm::from_u8(3), Some(CompressionAlgorithm::BZip2));
    assert_eq!(RevocationCode::from_u8(3), Some(RevocationCode::KeyRetired));
    assert_eq!(SubpacketType::from_u8(32), Some(SubpacketType::EmbeddedSignature));
    assert_eq!(SubpacketType::from_u8(8), None);
    assert_eq!(KeyFlag::from_u8(0x20), Some(KeyFlag::Authentication));
    assert_eq!(KeyFlag::SharedPrivateKey.to_u8(), 0x80);
    assert_eq!(KeyFlag::from_u8(0x40), None);
    for id in 0..=255u8 {
        if let Some(t) = SubpacketType::from_u8(id) {
            assert_eq!(t.to_u8(), id);
        }
        if let Some(t) = SignatureType::from_u8(id) {
            assert_eq!(t.to_u8(), id);
        }
        if let Some(t) = PublicKeyAlgorithm::from_u8(id) {
            assert_eq!(t.to_u8(), id);
        }
    }
}

#[test]
fn first_subpacket_and_its_length() {
    let mut region = sub(27, &[0x0F]);
    region.extend(sub(7, &[1]));
    match first_subpacket(&region) {
        Ok((Subpacket::KeyFlags(f), used)) => {
            assert_eq!(f, vec![0x0F]);
            assert_eq!(used, 3);
        }
        other => panic!("unexpected result {:?}", other),
    }
    match first_subpacket(&[192, 1, 7, 1]) {
        Err(Error::InvalidInput) => {}
        other => panic!("unexpected result {:?}", other),
    }
    let mut long = vec![192, 0, 23];
    long.extend_from_slice(&[7u8; 191]);
    long.push(99);
    match first_subpacket(&long) {
        Ok((Subpacket::KeyServerPreferences(b), used)) => {
            assert_eq!(b.len(), 191);
            assert_eq!(used, 194);
        }
        other => panic!("unexpected result {:?}", other),
    }
    assert!(matches!(first_subpacket(&[]), Err(Error::InvalidInput)));
    assert!(matches!(first_subpacket(&[1]), Err(Error::InvalidInput)));
    assert!(matches!(first_subpacket(&[2, 26, 0]), Err(Error::Unimplemented)));
}

#[test]
fn parse_with_rest_hands_back_what_follows() {
    let input = v4(0x00, 1, 8, &sub(2, &[0, 0, 0, 5]), &sub(16, &[8; 8]));
    let (sig, rest) = parse_with_rest(&input).unwrap();
    assert_eq!(sig.created, Some(5));
    assert_eq!(sig.unhashed_subpackets.len(), 1);
    assert_eq!(rest, &[0xAB, 0xCD, 0x00, 0x08, 0xFF]);

    let (sig, rest) = parse_with_rest(&[3, 5, 0x10, 1, 2, 3, 4]).unwrap();
    assert_eq!(sig.typ, SignatureType::CertGeneric);
    assert_eq!(rest, &[1, 2, 3, 4]);

    let (_, rest) = parse_with_rest(&[4, 0, 1, 8, 0, 0, 0, 0]).unwrap();
    assert!(rest.is_empty());
    assert!(matches!(parse_with_rest(&[4, 0, 1, 8, 0, 0, 0]), Err(Error::InvalidInput)));
    assert!(matches!(parse_with_rest(&[]), Err(Error::InvalidInput)));
}

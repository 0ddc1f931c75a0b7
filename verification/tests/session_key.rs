use std::cell::Cell;

use cfb_mode::cipher::{AsyncStreamCipher, KeyIvInit};
use pgp::composed::message::decrypt::{
    decrypt_session_key, decrypt_session_key_with_password, read_session_key,
    session_key_from_password, MessageDecrypter, Step,
};
use pgp::composed::message::types::{Edata, Tag};
use pgp::crypto::checksum;
use pgp::crypto::ecdh::{encrypt, generate_key};
use pgp::crypto::hash::HashAlgorithm;
use pgp::crypto::sym::SymmetricKeyAlgorithm;
use pgp::errors::Error;
use pgp::packet::sym_key_encrypted_session_key::SymKeyEncryptedSessionKey;
use pgp::types::mpi::Mpi;
use pgp::types::params::{PublicParams, SecretKeyRepr};
use pgp::types::s2k::StringToKey;
use rand::SeedableRng;
use rand_chacha::ChaChaRng;
use sha1::Digest;

fn blob(alg: u8, key: &[u8]) -> Vec<u8> {
    let mut out = vec![alg];
    out.extend_from_slice(key);
    out.extend_from_slice(&checksum::calculate_simple(key).to_be_bytes());
    out
}

fn cfb_encrypt(key: &[u8], iv: &[u8], data: &[u8]) -> Vec<u8> {
    let mut buf = data.to_vec();
    match key.len() {
        16 => cfb_mode::Encryptor::<aes::Aes128>::new_from_slices(key, iv)
            .unwrap()
            .encrypt(&mut buf),
        24 => cfb_mode::Encryptor::<aes::Aes192>::new_from_slices(key, iv)
            .unwrap()
            .encrypt(&mut buf),
        _ => cfb_mode::Encryptor::<aes::Aes256>::new_from_slices(key, iv)
            .unwrap()
            .encrypt(&mut buf),
    }
    buf
}

fn prefix() -> Vec<u8> {
    let mut p: Vec<u8> = (0..16).map(|i| (i * 11 + 5) as u8).collect();
    p.push(p[14]);
    p.push(p[15]);
    p
}

fn protected_packet(key: &[u8], data: &[u8]) -> Vec<u8> {
    let mut plain = prefix();
    plain.extend_from_slice(data);
    plain.extend_from_slice(&[0xD3, 0x14]);
    let digest = sha1::Sha1::digest(&plain);
    plain.extend_from_slice(&digest);
    cfb_encrypt(key, &[0u8; 16], &plain)
}

fn unprotected_packet(key: &[u8], data: &[u8]) -> Vec<u8> {
    let mut out = cfb_encrypt(key, &[0u8; 16], &prefix());
    let iv = out[2..18].to_vec();
    out.extend_from_slice(&cfb_encrypt(key, &iv, data));
    out
}

fn ecdh_packet(secret: [u8; 32], fingerprint: &[u8], plain: &[u8]) -> (SecretKeyRepr, Vec<Mpi>) {
    let (pkey, skey) = generate_key(secret);
    let repr = skey.as_repr(&pkey).unwrap();
    let PublicParams::ECDH(public) = pkey;
    let mpis = encrypt(
        [0x77u8; 32],
        &public.curve,
        public.alg_sym,
        public.hash,
        fingerprint,
        public.p.as_bytes(),
        plain,
    )
    .unwrap();
    (repr, mpis.into_iter().map(Mpi::from_raw).collect())
}

#[test]
fn read_session_key_of_fixed_length() {
    let key: Vec<u8> = (1..=16).collect();
    let mut data = blob(7, &key);
    assert_eq!(data.len(), 19);
    assert_eq!(&data[17..], &[0, 136]);
    assert_eq!(
        read_session_key(&data, false),
        Ok((key.clone(), SymmetricKeyAlgorithm::AES128))
    );
    // what follows the checksum is not read
    data.extend_from_slice(&[1, 2, 3]);
    assert_eq!(
        read_session_key(&data, false),
        Ok((key.clone(), SymmetricKeyAlgorithm::AES128))
    );
    let key32 = vec![0xEEu8; 32];
    assert_eq!(
        read_session_key(&blob(9, &key32), false),
        Ok((key32, SymmetricKeyAlgorithm::AES256))
    );
}

#[test]
fn read_session_key_from_ecdh_takes_all_between() {
    let key = vec![5u8; 21];
    assert_eq!(
        read_session_key(&blob(7, &key), true),
        Ok((key.clone(), SymmetricKeyAlgorithm::AES128))
    );
    // the same blob read by the fixed length misses its checksum
    assert_eq!(read_session_key(&blob(7, &key), false), Err(Error::ChecksumMismatch));
    assert_eq!(
        read_session_key(&[7, 0, 0], true),
        Ok((Vec::new(), SymmetricKeyAlgorithm::AES128))
    );
}

#[test]
fn read_session_key_checksum_mismatch() {
    let key: Vec<u8> = (1..=16).collect();
    for bit in 0..8 {
        let mut data = blob(7, &key);
        let last = data.len() - 1;
        data[last] ^= 1 << bit;
        assert_eq!(read_session_key(&data, false), Err(Error::ChecksumMismatch));
        assert_eq!(read_session_key(&data, true), Err(Error::ChecksumMismatch));
    }
}

#[test]
fn read_session_key_rejects_plaintext() {
    let key: Vec<u8> = (1..=16).collect();
    assert_eq!(read_session_key(&blob(0, &key), false), Err(Error::PlaintextSessionKey));
    assert_eq!(read_session_key(&blob(0, &key), true), Err(Error::PlaintextSessionKey));
    assert_eq!(read_session_key(&[0], true), Err(Error::PlaintextSessionKey));
}

#[test]
fn read_session_key_rejects_short_blobs() {
    assert_eq!(read_session_key(&[], false), Err(Error::InvalidInput));
    assert_eq!(read_session_key(&[], true), Err(Error::InvalidInput));
    assert_eq!(read_session_key(&[7, 1], true), Err(Error::InvalidInput));
    let key: Vec<u8> = (1..=16).collect();
    let data = blob(7, &key);
    assert_eq!(read_session_key(&data[..18], false), Err(Error::InvalidInput));
}

#[test]
fn decrypt_session_key_with_ecdh() {
    let fingerprint = [0x0Fu8; 20];
    let key = vec![0xA5u8; 32];
    let (repr, mpis) = ecdh_packet([3u8; 32], &fingerprint, &blob(9, &key));
    assert_eq!(
        decrypt_session_key(&repr, &fingerprint, &mpis),
        Ok((key, SymmetricKeyAlgorithm::AES256))
    );
    assert_eq!(
        decrypt_session_key(&repr, &fingerprint, &mpis[..2]),
        Err(Error::InvalidInput)
    );
}

#[test]
fn decrypt_session_key_checksum_mismatch() {
    let fingerprint = [0x0Fu8; 20];
    let key = vec![0xA5u8; 32];
    let mut data = blob(9, &key);
    let last = data.len() - 1;
    data[last] ^= 0x01;
    let (repr, mpis) = ecdh_packet([3u8; 32], &fingerprint, &data);
    assert_eq!(
        decrypt_session_key(&repr, &fingerprint, &mpis),
        Err(Error::ChecksumMismatch)
    );
}

#[test]
fn decrypt_session_key_plaintext_algorithm() {
    let fingerprint = [0x0Fu8; 20];
    let key = vec![0xA5u8; 32];
    let (repr, mpis) = ecdh_packet([3u8; 32], &fingerprint, &blob(0, &key));
    assert_eq!(
        decrypt_session_key(&repr, &fingerprint, &mpis),
        Err(Error::PlaintextSessionKey)
    );
}

#[test]
fn decrypt_session_key_with_signing_keys() {
    let mpis = vec![Mpi::from_slice(&[1, 2, 3])];
    let fingerprint = [0u8; 20];
    assert_eq!(
        decrypt_session_key(&SecretKeyRepr::DSA(vec![1]), &fingerprint, &mpis),
        Err(Error::SigningOnlyKey)
    );
    assert_eq!(
        decrypt_session_key(&SecretKeyRepr::ECDSA(vec![1]), &fingerprint, &mpis),
        Err(Error::SigningOnlyKey)
    );
    assert_eq!(
        decrypt_session_key(&SecretKeyRepr::EdDSA(vec![1]), &fingerprint, &mpis),
        Err(Error::Unimplemented)
    );
}

#[test]
fn decrypt_session_key_with_rsa() {
    let mut rng = ChaChaRng::from_seed([7u8; 32]);
    let private = rsa::RsaPrivateKey::new(&mut rng, 1024).unwrap();
    let public = rsa::RsaPublicKey::from(&private);
    let key: Vec<u8> = (100..116).collect();
    let data = blob(7, &key);
    let ciphertext = public.encrypt(&mut rng, rsa::Pkcs1v15Encrypt, &data).unwrap();
    assert_ne!(ciphertext, data);
    let repr = SecretKeyRepr::RSA(private);
    let fingerprint = [0u8; 20];
    let mpis = vec![Mpi::from_raw(ciphertext.clone())];
    assert_eq!(
        decrypt_session_key(&repr, &fingerprint, &mpis),
        Ok((key, SymmetricKeyAlgorithm::AES128))
    );

    let two = vec![Mpi::from_raw(ciphertext.clone()), Mpi::from_raw(ciphertext)];
    assert_eq!(decrypt_session_key(&repr, &fingerprint, &two), Err(Error::InvalidInput));
    assert_eq!(decrypt_session_key(&repr, &fingerprint, &[]), Err(Error::InvalidInput));

    let garbage = vec![Mpi::from_slice(&[1, 2, 3, 4])];
    assert_eq!(decrypt_session_key(&repr, &fingerprint, &garbage), Err(Error::CryptoFailure));

    let bad = public
        .encrypt(&mut rng, rsa::Pkcs1v15Encrypt, &blob(0, &[1u8; 16]))
        .unwrap();
    assert_eq!(
        decrypt_session_key(&repr, &fingerprint, &[Mpi::from_raw(bad)]),
        Err(Error::PlaintextSessionKey)
    );
}

#[test]
fn password_gives_the_session_key_directly() {
    let s2k = StringToKey::Simple { hash: HashAlgorithm::SHA2_256 };
    let packet = SymKeyEncryptedSessionKey::new(SymmetricKeyAlgorithm::AES128, s2k, None);
    let expected = s2k.derive_key(b"password", 16).unwrap();
    assert_eq!(expected[..4], [0x5e, 0x88, 0x48, 0x98]);
    assert_eq!(
        session_key_from_password(&packet, b"password"),
        Ok((expected.clone(), SymmetricKeyAlgorithm::AES128))
    );
    assert_eq!(
        decrypt_session_key_with_password(&packet, || "password".to_string()),
        Ok((expected, SymmetricKeyAlgorithm::AES128))
    );
    assert_eq!(packet.sym_algorithm(), SymmetricKeyAlgorithm::AES128);
    assert_eq!(packet.encrypted_key(), &None);
}

#[test]
fn password_opens_an_encrypted_session_key() {
    let s2k = StringToKey::Salted { hash: HashAlgorithm::SHA2_256, salt: [4u8; 8] };
    let outer = s2k.derive_key("pässword".as_bytes(), 16).unwrap();
    let session_key = vec![0x3Cu8; 32];
    let mut plain = vec![9u8];
    plain.extend_from_slice(&session_key);
    let encrypted = cfb_encrypt(&outer, &[0u8; 16], &plain);
    let packet =
        SymKeyEncryptedSessionKey::new(SymmetricKeyAlgorithm::AES128, s2k, Some(encrypted));
    assert_eq!(
        decrypt_session_key_with_password(&packet, || "pässword".to_string()),
        Ok((session_key.clone(), SymmetricKeyAlgorithm::AES256))
    );
    assert_eq!(
        session_key_from_password(&packet, "pässword".as_bytes()),
        Ok((session_key, SymmetricKeyAlgorithm::AES256))
    );
}

#[test]
fn password_path_rejects_plaintext() {
    let s2k = StringToKey::Simple { hash: HashAlgorithm::SHA2_256 };
    let packet = SymKeyEncryptedSessionKey::new(SymmetricKeyAlgorithm::Plaintext, s2k, None);
    let asked = Cell::new(false);
    let res = decrypt_session_key_with_password(&packet, || {
        asked.set(true);
        "password".to_string()
    });
    assert_eq!(res, Err(Error::PlaintextSessionKey));
    assert!(!asked.get());
    assert_eq!(
        session_key_from_password(&packet, b"password"),
        Err(Error::PlaintextSessionKey)
    );

    // the decrypted key names the marker for unencrypted data
    let outer = s2k.derive_key(b"password", 16).unwrap();
    let mut plain = vec![0u8];
    plain.extend_from_slice(&[1u8; 16]);
    let encrypted = cfb_encrypt(&outer, &[0u8; 16], &plain);
    let packet =
        SymKeyEncryptedSessionKey::new(SymmetricKeyAlgorithm::AES128, s2k, Some(encrypted));
    assert_eq!(
        session_key_from_password(&packet, b"password"),
        Err(Error::PlaintextSessionKey)
    );
}

#[test]
fn password_path_errors() {
    let s2k = StringToKey::Simple { hash: HashAlgorithm::SHA2_256 };
    let empty = SymKeyEncryptedSessionKey::new(SymmetricKeyAlgorithm::AES128, s2k, Some(vec![]));
    assert_eq!(session_key_from_password(&empty, b"password"), Err(Error::InvalidInput));
    let other =
        SymKeyEncryptedSessionKey::new(SymmetricKeyAlgorithm::Twofish, s2k, Some(vec![1, 2]));
    assert_eq!(session_key_from_password(&other, b"password"), Err(Error::Unsupported));
    let md5 = StringToKey::Simple { hash: HashAlgorithm::MD5 };
    let packet = SymKeyEncryptedSessionKey::new(SymmetricKeyAlgorithm::AES128, md5, None);
    assert_eq!(session_key_from_password(&packet, b"password"), Err(Error::Unsupported));
}

#[test]
fn protected_and_unprotected_packets() {
    let key = [0x21u8; 16];
    let alg = SymmetricKeyAlgorithm::AES128;
    let packet = protected_packet(&key, b"hello\n");
    assert_eq!(alg.decrypt_protected(&key, &packet), Ok(b"hello\n".to_vec()));
    let mut damaged = packet.clone();
    let last = damaged.len() - 1;
    damaged[last] ^= 0x80;
    assert_eq!(alg.decrypt_protected(&key, &damaged), Err(Error::IntegrityCheckFailed));
    let mut damaged = packet.clone();
    damaged[20] ^= 0x01;
    assert_eq!(alg.decrypt_protected(&key, &damaged), Err(Error::IntegrityCheckFailed));
    assert_eq!(alg.decrypt_protected(&[0x22u8; 16], &packet), Err(Error::PrefixMismatch));
    assert_eq!(alg.decrypt_protected(&key, &packet[..39]), Err(Error::InvalidInput));
    assert_eq!(alg.decrypt_protected(&[0u8; 24], &packet), Err(Error::InvalidKeyLength));
    assert_eq!(
        SymmetricKeyAlgorithm::Blowfish.decrypt_protected(&key, &packet),
        Err(Error::Unsupported)
    );
    let empty = protected_packet(&key, b"");
    assert_eq!(empty.len(), 40);
    assert_eq!(alg.decrypt_protected(&key, &empty), Ok(Vec::new()));

    let packet = unprotected_packet(&key, b"hello\n");
    assert_eq!(alg.decrypt(&key, &packet), Ok(b"hello\n".to_vec()));
    assert_eq!(alg.decrypt(&[0x22u8; 16], &packet), Err(Error::PrefixMismatch));
    assert_eq!(alg.decrypt(&key, &packet[..17]), Err(Error::InvalidInput));
    assert_eq!(alg.decrypt(&key, &packet[..18]), Ok(Vec::new()));
    assert_eq!(alg.decrypt(&[0u8; 24], &packet), Err(Error::InvalidKeyLength));
    assert_eq!(
        SymmetricKeyAlgorithm::Plaintext.decrypt(&key, &packet),
        Err(Error::Unsupported)
    );

    let key = [0x31u8; 32];
    let packet = protected_packet(&key, b"longer key");
    assert_eq!(
        SymmetricKeyAlgorithm::AES256.decrypt_protected(&key, &packet),
        Ok(b"longer key".to_vec())
    );
}

#[test]
fn edata_accessors() {
    let plain = Edata::SymEncryptedData(vec![1, 2, 3]);
    let protected = Edata::SymEncryptedProtectedData(vec![4, 5]);
    assert_eq!(plain.tag(), Tag::SymEncryptedData);
    assert_eq!(protected.tag(), Tag::SymEncryptedProtectedData);
    assert_eq!(plain.data(), &[1, 2, 3]);
    assert_eq!(protected.data(), &[4, 5]);
}

#[test]
fn decrypter_opens_the_first_packet() {
    let key = vec![0x21u8; 16];
    let edata = vec![
        Edata::SymEncryptedProtectedData(protected_packet(&key, b"hello\n")),
        Edata::SymEncryptedData(unprotected_packet(&key, b"never read")),
    ];
    let mut decrypter = MessageDecrypter::new(key, SymmetricKeyAlgorithm::AES128, &edata);
    assert_eq!(decrypter.pos(), 0);
    assert!(!decrypter.is_producing());
    match decrypter.next() {
        Step::Parse(plain) => assert_eq!(plain, b"hello\n".to_vec()),
        other => panic!("unexpected step {:?}", other),
    }
    assert_eq!(decrypter.pos(), 1);
    assert!(decrypter.is_producing());
    for _ in 0..3 {
        assert!(matches!(decrypter.next(), Step::Delegate));
        assert_eq!(decrypter.pos(), 1);
        assert!(decrypter.is_producing());
    }
}

#[test]
fn decrypter_reports_a_bad_packet_and_goes_on() {
    let key = vec![0x21u8; 16];
    let mut damaged = protected_packet(&key, b"first");
    let last = damaged.len() - 1;
    damaged[last] ^= 1;
    let edata = vec![
        Edata::SymEncryptedProtectedData(damaged),
        Edata::SymEncryptedData(vec![1, 2, 3]),
        Edata::SymEncryptedData(unprotected_packet(&key, b"third")),
    ];
    let mut decrypter = MessageDecrypter::new(key, SymmetricKeyAlgorithm::AES128, &edata);
    assert!(matches!(decrypter.next(), Step::Failed(Error::IntegrityCheckFailed)));
    assert_eq!(decrypter.pos(), 1);
    assert!(!decrypter.is_producing());
    assert!(matches!(decrypter.next(), Step::Failed(Error::InvalidInput)));
    assert_eq!(decrypter.pos(), 2);
    match decrypter.next() {
        Step::Parse(plain) => assert_eq!(plain, b"third".to_vec()),
        other => panic!("unexpected step {:?}", other),
    }
    assert_eq!(decrypter.pos(), 3);
    assert!(matches!(decrypter.next(), Step::Delegate));
}

#[test]
fn decrypter_ends_when_nothing_opens() {
    let edata: Vec<Edata> = Vec::new();
    let mut decrypter = MessageDecrypter::new(vec![1u8; 16], SymmetricKeyAlgorithm::AES128, &edata);
    assert!(matches!(decrypter.next(), Step::Done));
    assert!(matches!(decrypter.next(), Step::Done));
    assert_eq!(decrypter.pos(), 0);

    let edata = vec![Edata::SymEncryptedData(vec![0u8; 30])];
    let mut decrypter = MessageDecrypter::new(vec![1u8; 16], SymmetricKeyAlgorithm::CAST5, &edata);
    assert!(matches!(decrypter.next(), Step::Failed(Error::Unsupported)));
    assert_eq!(decrypter.pos(), 1);
    assert!(matches!(decrypter.next(), Step::Done));
    assert_eq!(decrypter.pos(), 1);
}

#[test]
fn rsa_failure_comes_out_as_the_result() {
    let mut rng = ChaChaRng::from_seed([9u8; 32]);
    let private = rsa::RsaPrivateKey::new(&mut rng, 1024).unwrap();
    let other = rsa::RsaPrivateKey::new(&mut rng, 1024).unwrap();
    let key: Vec<u8> = (1..=16).collect();
    let ciphertext = rsa::RsaPublicKey::from(&other)
        .encrypt(&mut rng, rsa::Pkcs1v15Encrypt, &blob(7, &key))
        .unwrap();
    // a ciphertext for another key does not decrypt
    let repr = SecretKeyRepr::RSA(private);
    let mpis = vec![Mpi::from_raw(ciphertext)];
    assert_eq!(decrypt_session_key(&repr, &[0u8; 20], &mpis), Err(Error::CryptoFailure));
    // the same input gives the same result
    assert_eq!(decrypt_session_key(&repr, &[0u8; 20], &mpis), Err(Error::CryptoFailure));
}

#[test]
fn session_key_is_one_octet_shorter_than_the_encrypted_key() {
    let s2k = StringToKey::Simple { hash: HashAlgorithm::SHA2_256 };
    let outer = s2k.derive_key(b"pw", 16).unwrap();
    for len in [1usize, 2, 17, 33] {
        let mut plain = vec![7u8];
        plain.extend_from_slice(&vec![0x11u8; len - 1]);
        let encrypted = cfb_encrypt(&outer, &[0u8; 16], &plain);
        let packet =
            SymKeyEncryptedSessionKey::new(SymmetricKeyAlgorithm::AES128, s2k, Some(encrypted));
        let (key, alg) = session_key_from_password(&packet, b"pw").unwrap();
        assert_eq!(key.len(), len - 1);
        assert_eq!(alg, SymmetricKeyAlgorithm::AES128);
    }
    let packet = SymKeyEncryptedSessionKey::new(SymmetricKeyAlgorithm::AES192, s2k, None);
    assert_eq!(session_key_from_password(&packet, b"pw").unwrap().0.len(), 24);
    let empty = SymKeyEncryptedSessionKey::new(SymmetricKeyAlgorithm::AES128, s2k, Some(vec![]));
    assert_eq!(
        decrypt_session_key_with_password(&empty, || "pw".to_string()),
        Err(Error::InvalidInput)
    );
}

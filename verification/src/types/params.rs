//! Key material as the algorithms take it.

use vstd::prelude::*;
use crate::crypto::ecc_curve::ECCCurve;
use crate::crypto::hash::HashAlgorithm;
use crate::crypto::sym::SymmetricKeyAlgorithm;
use crate::errors::Error;
use crate::types::mpi::{Mpi, right_aligned};

verus! {

/// The secret half of an ECDH key, together with the parameters that the
/// key derivation takes from the public half.
#[derive(Debug, Clone)]
pub struct ECDHSecretKey {
    /// The encoded object identifier of the curve.
    pub oid: Vec<u8>,
    /// The cipher that wraps the session key.
    pub alg_sym: SymmetricKeyAlgorithm,
    /// The hash of the key derivation.
    pub hash: HashAlgorithm,
    /// The secret scalar, most significant octet first.
    pub secret: Vec<u8>,
}

/// An unlocked secret key, by algorithm.
#[derive(Debug)]
pub enum SecretKeyRepr {
    RSA(rsa::RsaPrivateKey),
    /// The secret number of a DSA key.
    DSA(Vec<u8>),
    /// The secret scalar of an ECDSA key.
    ECDSA(Vec<u8>),
    ECDH(ECDHSecretKey),
    /// The secret seed of an EdDSA key.
    EdDSA(Vec<u8>),
}

/// The public half of an ECDH key.
#[derive(Debug, Clone)]
pub struct ECDHPublicParams {
    pub curve: ECCCurve,
    /// The public point: the octet 0x40 and the 32 octets of the point.
    pub p: Mpi,
    pub hash: HashAlgorithm,
    pub alg_sym: SymmetricKeyAlgorithm,
}

/// The public parameters of a key, by algorithm.
#[derive(Debug, Clone)]
pub enum PublicParams {
    ECDH(ECDHPublicParams),
}

/// The secret parameters of a key before they are locked, by algorithm.
#[derive(Debug, Clone)]
pub enum PlainSecretParams {
    /// The secret scalar of an ECDH key, most significant octet first.
    ECDH(Mpi),
}

impl PlainSecretParams {
    /// The key in the form that decryption takes: the scalar in a field
    /// of 32 octets, with zero octets in front of it, beside the
    /// parameters of the public half. Fails with `InvalidInput` for a
    /// scalar of more than 32 octets and with `Unsupported` for a curve
    /// other than Curve25519.
    pub fn as_repr(&self, public_params: &PublicParams) -> (out: Result<SecretKeyRepr, Error>)
        ensures
            match (*self, *public_params) {
                (PlainSecretParams::ECDH(d), PublicParams::ECDH(public)) => if public.curve
                    != ECCCurve::Curve25519 {
                    out matches Err(e) && e == Error::Unsupported
                } else if d@.len() > 32 {
                    out matches Err(e) && e == Error::InvalidInput
                } else {
                    out matches Ok(SecretKeyRepr::ECDH(key)) && key.oid@ == public.curve.spec_oid()
                        && key.hash == public.hash && key.alg_sym == public.alg_sym && key.secret@
                        == right_aligned(d@, 32)
                },
            },
    {
        match self {
            PlainSecretParams::ECDH(d) => match public_params {
                PublicParams::ECDH(public) => {
                    if !public.curve.is_curve25519() {
                        return Err(Error::Unsupported);
                    }
                    if d.len() > 32 {
                        return Err(Error::InvalidInput);
                    }
                    let fill: usize = 32 - d.len();
                    let mut secret: Vec<u8> = vec![0u8; fill];
                    secret.extend_from_slice(d.as_bytes());
                    Ok(
                        SecretKeyRepr::ECDH(
                            ECDHSecretKey {
                                oid: public.curve.oid(),
                                alg_sym: public.alg_sym,
                                hash: public.hash,
                                secret,
                            },
                        ),
                    )
                },
            },
        }
    }
}

} // verus!

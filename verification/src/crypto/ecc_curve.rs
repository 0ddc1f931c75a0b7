//! Elliptic curves and their object identifiers.

use vstd::prelude::*;

verus! {

/// The curves that a key can name.
#[derive(Debug, Clone, Copy, PartialEq, Eq, Structural)]
pub enum ECCCurve {
    Curve25519,
    Ed25519,
    P256,
    P384,
    P521,
}

impl ECCCurve {
    /// The encoded object identifier of the curve.
    pub open spec fn spec_oid(self) -> Seq<u8> {
        match self {
            ECCCurve::Curve25519 => seq![
                0x2Bu8, 0x06u8, 0x01u8, 0x04u8, 0x01u8, 0x97u8, 0x55u8, 0x01u8, 0x05u8, 0x01u8,
            ],
            ECCCurve::Ed25519 => seq![
                0x2Bu8, 0x06u8, 0x01u8, 0x04u8, 0x01u8, 0xDAu8, 0x47u8, 0x0Fu8, 0x01u8,
            ],
            ECCCurve::P256 => seq![
                0x2Au8, 0x86u8, 0x48u8, 0xCEu8, 0x3Du8, 0x03u8, 0x01u8, 0x07u8,
            ],
            ECCCurve::P384 => seq![0x2Bu8, 0x81u8, 0x04u8, 0x00u8, 0x22u8],
            ECCCurve::P521 => seq![0x2Bu8, 0x81u8, 0x04u8, 0x00u8, 0x23u8],
        }
    }

    /// The encoded object identifier of the curve.
    pub fn oid(&self) -> (out: Vec<u8>)
        ensures
            out@ == self.spec_oid(),
    {
        let out = match self {
            ECCCurve::Curve25519 => vec![
                0x2Bu8, 0x06u8, 0x01u8, 0x04u8, 0x01u8, 0x97u8, 0x55u8, 0x01u8, 0x05u8, 0x01u8,
            ],
            ECCCurve::Ed25519 => vec![
                0x2Bu8, 0x06u8, 0x01u8, 0x04u8, 0x01u8, 0xDAu8, 0x47u8, 0x0Fu8, 0x01u8,
            ],
            ECCCurve::P256 => vec![
                0x2Au8, 0x86u8, 0x48u8, 0xCEu8, 0x3Du8, 0x03u8, 0x01u8, 0x07u8,
            ],
            ECCCurve::P384 => vec![0x2Bu8, 0x81u8, 0x04u8, 0x00u8, 0x22u8],
            ECCCurve::P521 => vec![0x2Bu8, 0x81u8, 0x04u8, 0x00u8, 0x23u8],
        };
        out
    }

    /// Whether this is the curve of X25519 key agreement.
    pub fn is_curve25519(&self) -> (b: bool)
        ensures
            b == (*self == ECCCurve::Curve25519),
    {
        match self {
            ECCCurve::Curve25519 => true,
            _ => false,
        }
    }
}

} // verus!

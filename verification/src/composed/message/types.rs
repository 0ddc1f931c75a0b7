//! The encrypted parts of a message.

use vstd::prelude::*;

verus! {

/// The kind of an encrypted data packet.
#[derive(Debug, Clone, Copy, PartialEq, Eq, Structural)]
pub enum Tag {
    /// Encrypted data without integrity protection.
    SymEncryptedData,
    /// Encrypted data with an integrity trailer.
    SymEncryptedProtectedData,
}

/// An encrypted data packet of either kind, with its ciphertext.
#[derive(Debug, Clone)]
pub enum Edata {
    SymEncryptedData(Vec<u8>),
    SymEncryptedProtectedData(Vec<u8>),
}

impl Edata {
    /// The kind of the packet.
    pub open spec fn spec_tag(self) -> Tag {
        match self {
            Edata::SymEncryptedData(_) => Tag::SymEncryptedData,
            Edata::SymEncryptedProtectedData(_) => Tag::SymEncryptedProtectedData,
        }
    }

    /// The ciphertext of the packet.
    pub open spec fn spec_data(self) -> Seq<u8> {
        match self {
            Edata::SymEncryptedData(d) => d@,
            Edata::SymEncryptedProtectedData(d) => d@,
        }
    }

    /// The kind of the packet.
    pub fn tag(&self) -> (tag: Tag)
        ensures
            tag == self.spec_tag(),
    {
        match self {
            Edata::SymEncryptedData(_) => Tag::SymEncryptedData,
            Edata::SymEncryptedProtectedData(_) => Tag::SymEncryptedProtectedData,
        }
    }

    /// The ciphertext of the packet.
    pub fn data(&self) -> (data: &[u8])
        ensures
            data@ == self.spec_data(),
    {
        match self {
            Edata::SymEncryptedData(d) => d.as_slice(),
            Edata::SymEncryptedProtectedData(d) => d.as_slice(),
        }
    }
}

} // verus!

//! Signatures as the system calls see them.

use vstd::prelude::*;

verus! {

/// The scheme a signature was made with.
#[derive(Clone, Copy, Debug, PartialEq, Eq, Structural)]
pub enum SignatureType {
    Secp256k1,
    BLS,
}

/// A signature: its scheme and its bytes.
#[derive(Clone, Debug, PartialEq, Eq)]
pub struct Signature {
    pub sig_type: SignatureType,
    pub bytes: Vec<u8>,
}

impl Default for Signature {
    /// The BLS signature with no bytes.
    fn default() -> (s: Signature)
        ensures
            s.sig_type == SignatureType::BLS,
            s.bytes@ == Seq::<u8>::empty(),
    {
        Signature { sig_type: SignatureType::BLS, bytes: Vec::new() }
    }
}

impl Signature {
    /// A Secp256k1 signature with the given bytes.
    pub fn new_secp256k1(bytes: Vec<u8>) -> (s: Signature)
        ensures
            s.sig_type == SignatureType::Secp256k1,
            s.bytes == bytes,
    {
        Signature { sig_type: SignatureType::Secp256k1, bytes }
    }

    /// A BLS signature with the given bytes.
    pub fn new_bls(bytes: Vec<u8>) -> (s: Signature)
        ensures
            s.sig_type == SignatureType::BLS,
            s.bytes == bytes,
    {
        Signature { sig_type: SignatureType::BLS, bytes }
    }

    /// The scheme of this signature.
    pub fn signature_type(&self) -> (t: SignatureType)
        ensures
            t == self.sig_type,
    {
        self.sig_type
    }
}

} // verus!

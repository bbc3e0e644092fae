//! Content identifiers.

use vstd::prelude::*;
use crate::bytes::{bytes_eq, copy_bytes};

verus! {

/// A content identifier: the key under which a content-addressed store holds
/// a block, and the tag that names an actor's code. It is held in its byte
/// form, and two identifiers are the same when their bytes are.
#[derive(Debug, PartialEq, Eq)]
pub struct Cid {
    pub bytes: Vec<u8>,
}

impl View for Cid {
    type V = Seq<u8>;

    open spec fn view(&self) -> Seq<u8> {
        self.bytes@
    }
}

impl Clone for Cid {
    fn clone(&self) -> (c: Cid)
        ensures
            c@ == self@,
    {
        Cid { bytes: copy_bytes(self.bytes.as_slice()) }
    }
}

impl Default for Cid {
    /// The identifier with no bytes.
    fn default() -> (c: Cid)
        ensures
            c@ == Seq::<u8>::empty(),
    {
        Cid { bytes: Vec::new() }
    }
}

impl Cid {
    /// The identifier with the given byte form.
    pub fn new(bytes: Vec<u8>) -> (c: Cid)
        ensures
            c@ == bytes@,
    {
        Cid { bytes }
    }

    /// The byte form of this identifier.
    pub fn to_bytes(&self) -> (out: Vec<u8>)
        ensures
            out@ == self@,
    {
        copy_bytes(self.bytes.as_slice())
    }

    /// Whether this identifier and `other` are the same.
    pub fn same(&self, other: &Cid) -> (r: bool)
        ensures
            r == (self@ == other@),
    {
        bytes_eq(self.bytes.as_slice(), other.bytes.as_slice())
    }
}

} // verus!

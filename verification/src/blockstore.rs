//! The content-addressed store: blocks of bytes under the identifiers that
//! their content gives them.

use vstd::prelude::*;
use crate::bytes::{bytes_eq, copy_bytes, push_all};
use crate::cid::Cid;
use crate::varint::{lemma_varint_is_prefix_free, varint, write_varint};

verus! {

/// A failure of the store itself, as opposed to a block that it does not
/// hold.
#[derive(Clone, Debug, PartialEq, Eq)]
pub struct StoreError {
    pub msg: String,
}

/// A content-addressed store.
///
/// `blocks` is what the store holds: a map from identifiers to blocks. A
/// block, once held, stays as it is: `put` adds a block under its identifier
/// and changes no other. A store is `reliable` when its operations never
/// fail.
pub trait BlockStore: Sized {
    /// The blocks that the store holds, by identifier.
    spec fn blocks(&self) -> Map<Seq<u8>, Seq<u8>>;

    /// Whether the operations of this store always succeed.
    spec fn reliable(&self) -> bool;

    /// The block held under `cid`: `Ok(None)` when the store holds none.
    fn get(&self, cid: &Cid) -> (r: Result<Option<Vec<u8>>, StoreError>)
        ensures
            self.reliable() ==> r is Ok,
            r matches Ok(Some(block)) ==> self.blocks().contains_key(cid@) && block@
                == self.blocks()[cid@],
            r matches Ok(None) ==> !self.blocks().contains_key(cid@),
    ;

    /// Stores `block` and returns the identifier that it is held under.
    fn put(&mut self, block: &[u8]) -> (r: Result<Cid, StoreError>)
        ensures
            final(self).reliable() == old(self).reliable(),
            old(self).reliable() ==> r is Ok,
            r matches Ok(cid) ==> final(self).blocks() == old(self).blocks().insert(cid@, block@)
                && (old(self).blocks().contains_key(cid@) ==> old(self).blocks()[cid@]
                == block@),
            r is Err ==> final(self).blocks() == old(self).blocks(),
    ;
}

/// The identifier that `MemoryStore` gives to `block`: version 1, raw
/// content, and in place of a digest the block itself behind its length.
pub open spec fn identity_cid(block: Seq<u8>) -> Seq<u8> {
    seq![0x01u8, 0x55u8, 0x00u8] + varint(block.len()) + block
}

/// Blocks with the same identifier are the same.
pub proof fn lemma_identity_cid_is_injective(a: Seq<u8>, b: Seq<u8>)
    requires
        identity_cid(a) == identity_cid(b),
    ensures
        a == b,
{
    let head = seq![0x01u8, 0x55u8, 0x00u8];
    let ta = varint(a.len()) + a;
    let tb = varint(b.len()) + b;
    assert(identity_cid(a) =~= head + ta);
    assert(identity_cid(b) =~= head + tb);
    assert(ta =~= (head + ta).subrange(3, (head + ta).len() as int));
    assert(tb =~= (head + tb).subrange(3, (head + tb).len() as int));
    lemma_varint_is_prefix_free(a.len(), a, b.len(), b);
}

/// The map that a list of blocks stands for: each block under its identifier.
pub open spec fn held(blocks: Seq<Vec<u8>>) -> Map<Seq<u8>, Seq<u8>>
    decreases blocks.len(),
{
    if blocks.len() == 0 {
        Map::empty()
    } else {
        held(blocks.drop_last()).insert(identity_cid(blocks.last()@), blocks.last()@)
    }
}

/// Every block of the map that a list of blocks stands for is held under
/// its own identifier.
pub proof fn lemma_held_under_own_cid(blocks: Seq<Vec<u8>>, cid: Seq<u8>)
    requires
        held(blocks).contains_key(cid),
    ensures
        cid == identity_cid(held(blocks)[cid]),
    decreases blocks.len(),
{
    if blocks.len() > 0 && cid != identity_cid(blocks.last()@) {
        lemma_held_under_own_cid(blocks.drop_last(), cid);
    }
}

/// The identifier that `MemoryStore` gives to `block`.
pub fn identity_cid_of(block: &[u8]) -> (cid: Vec<u8>)
    ensures
        cid@ == identity_cid(block@),
{
    let mut cid: Vec<u8> = Vec::new();
    cid.push(0x01u8);
    cid.push(0x55u8);
    cid.push(0x00u8);
    assert(cid@ =~= seq![0x01u8, 0x55u8, 0x00u8]);
    write_varint(&mut cid, block.len() as u64);
    push_all(&mut cid, block);
    cid
}

/// A store in memory. It never fails, and it names each block by
/// `identity_cid`.
pub struct MemoryStore {
    held: Vec<Vec<u8>>,
}

impl MemoryStore {
    /// A store that holds no block.
    pub fn new() -> (store: MemoryStore)
        ensures
            store.blocks() == Map::<Seq<u8>, Seq<u8>>::empty(),
            store.reliable(),
    {
        MemoryStore { held: Vec::new() }
    }

    /// The number of different blocks held.
    pub closed spec fn count(&self) -> nat {
        self.held@.len()
    }

    /// The number of different blocks held.
    pub fn len(&self) -> (n: usize)
        ensures
            n == self.count(),
    {
        self.held.len()
    }

    /// The position of the block with identifier `cid`, if it is held.
    fn find(&self, cid: &[u8]) -> (r: Option<usize>)
        ensures
            r matches Some(i) ==> i < self.held@.len() && self.blocks().contains_key(cid@)
                && self.blocks()[cid@] == self.held@[i as int]@,
            r is None ==> !self.blocks().contains_key(cid@),
    {
        let mut i: usize = self.held.len();
        assert(self.held@.subrange(0, i as int) =~= self.held@);
        while i > 0
            invariant
                i <= self.held@.len(),
                held(self.held@).contains_key(cid@) == held(
                    self.held@.subrange(0, i as int),
                ).contains_key(cid@),
                held(self.held@).contains_key(cid@) ==> held(self.held@)[cid@] == held(
                    self.held@.subrange(0, i as int),
                )[cid@],
            decreases i,
        {
            let ghost upto = self.held@.subrange(0, i as int);
            assert(upto.drop_last() =~= self.held@.subrange(0, i - 1));
            assert(upto.last() == self.held@[i - 1]);
            let block = self.held[i - 1].as_slice();
            let own = identity_cid_of(block);
            if bytes_eq(own.as_slice(), cid) {
                return Some(i - 1);
            }
            i = i - 1;
        }
        None
    }
}

impl BlockStore for MemoryStore {
    closed spec fn blocks(&self) -> Map<Seq<u8>, Seq<u8>> {
        held(self.held@)
    }

    open spec fn reliable(&self) -> bool {
        true
    }

    fn get(&self, cid: &Cid) -> (r: Result<Option<Vec<u8>>, StoreError>) {
        match self.find(cid.bytes.as_slice()) {
            Some(i) => Ok(Some(copy_bytes(self.held[i].as_slice()))),
            None => Ok(None),
        }
    }

    fn put(&mut self, block: &[u8]) -> (r: Result<Cid, StoreError>)
        ensures
            r matches Ok(cid) && cid@ == identity_cid(block@),
    {
        let cid = identity_cid_of(block);
        match self.find(cid.as_slice()) {
            Some(i) => {
                proof {
                    lemma_held_under_own_cid(self.held@, cid@);
                    lemma_identity_cid_is_injective(self.held@[i as int]@, block@);
                    assert(held(self.held@).insert(cid@, block@) =~= held(self.held@));
                }
            },
            None => {
                let ghost before = self.held@;
                self.held.push(copy_bytes(block));
                assert(self.held@.drop_last() =~= before);
            },
        }
        Ok(Cid { bytes: cid })
    }
}

} // verus!

//! The address map of the init actor: the record of which ID was given to
//! which address.
//!
//! The map is a list of entries, each an address in its byte form and the ID
//! given to it, in the order in which they were made. The newest entry for
//! an address is the one that counts. In a block the entries stand one after
//! the other, each as the address behind its length and the ID in eight
//! bytes.

use vstd::prelude::*;
use vstd::slice::slice_subrange;
use crate::address::ActorID;
use crate::bytes::{bytes_eq, copy_bytes};
use crate::codec::{
    field,
    le64,
    lemma_parse_field_is_exact,
    lemma_parse_field_of_field,
    lemma_parse_u64_is_exact,
    lemma_parse_u64_of_le64,
    parse_field,
    parse_u64,
    put_field,
    put_u64,
    take_field,
    take_u64,
};

verus! {

/// One entry of the map: the byte form of an address, and its ID.
pub type Entry = (Seq<u8>, ActorID);

/// The ID that `entries` gives to `key`: that of the newest entry for it.
pub open spec fn lookup(entries: Seq<Entry>, key: Seq<u8>) -> Option<ActorID>
    decreases entries.len(),
{
    if entries.len() == 0 {
        None
    } else if entries.last().0 == key {
        Some(entries.last().1)
    } else {
        lookup(entries.drop_last(), key)
    }
}

/// One entry in bytes.
pub open spec fn entry_bytes(key: Seq<u8>, id: ActorID) -> Seq<u8> {
    field(key) + le64(id)
}

/// A list of entries in bytes: the entries one after the other.
pub open spec fn entries_bytes(entries: Seq<Entry>) -> Seq<u8>
    decreases entries.len(),
{
    if entries.len() == 0 {
        Seq::empty()
    } else {
        entries_bytes(entries.drop_last()) + entry_bytes(entries.last().0, entries.last().1)
    }
}

/// Reads a block as a list of entries, or `None` where the block is not one.
pub open spec fn parse_entries(b: Seq<u8>) -> Option<Seq<Entry>>
    decreases b.len(),
{
    if b.len() == 0 {
        Some(Seq::empty())
    } else {
        match parse_field(b) {
            None => None,
            Some((key, after_key)) => match parse_u64(after_key) {
                None => None,
                Some((id, rest)) => if rest.len() < b.len() {
                    match parse_entries(rest) {
                        None => None,
                        Some(entries) => Some(seq![(key, id)] + entries),
                    }
                } else {
                    None
                },
            },
        }
    }
}

/// `front` followed by what was read behind it, where anything was.
pub open spec fn behind(front: Seq<Entry>, read: Option<Seq<Entry>>) -> Option<Seq<Entry>> {
    match read {
        None => None,
        Some(entries) => Some(front + entries),
    }
}

/// Whether every address of `entries` has a length that fits in 64 bits.
pub open spec fn keys_fit(entries: Seq<Entry>) -> bool {
    forall|i: int| 0 <= i < entries.len() ==> (#[trigger] entries[i]).0.len() <= u64::MAX
}

/// After an entry is added, its address has its ID, and every other
/// address has the ID that it had.
pub proof fn lemma_lookup_after_push(entries: Seq<Entry>, key: Seq<u8>, id: ActorID, other: Seq<u8>)
    ensures
        lookup(entries.push((key, id)), key) == Some(id),
        other != key ==> lookup(entries.push((key, id)), other) == lookup(entries, other),
{
    assert(entries.push((key, id)).drop_last() =~= entries);
}

/// An entry in front of a list is, in bytes, in front of the list's bytes.
pub proof fn lemma_entries_bytes_of_first(key: Seq<u8>, id: ActorID, entries: Seq<Entry>)
    ensures
        entries_bytes(seq![(key, id)] + entries) == entry_bytes(key, id) + entries_bytes(entries),
    decreases entries.len(),
{
    let all = seq![(key, id)] + entries;
    if entries.len() == 0 {
        assert(all.drop_last() =~= Seq::<Entry>::empty());
        assert(all.last() == (key, id));
        assert(entries_bytes(all.drop_last()) =~= Seq::<u8>::empty());
        assert(entries_bytes(entries) =~= Seq::<u8>::empty());
        assert(entries_bytes(all) =~= entry_bytes(key, id) + entries_bytes(entries));
    } else {
        assert(all.drop_last() =~= seq![(key, id)] + entries.drop_last());
        assert(all.last() == entries.last());
        lemma_entries_bytes_of_first(key, id, entries.drop_last());
        assert(entries_bytes(all) =~= entry_bytes(key, id) + entries_bytes(entries));
    }
}

/// One entry followed by more bytes is read as that entry, then the rest.
pub proof fn lemma_parse_entry(key: Seq<u8>, id: ActorID, rest: Seq<u8>)
    requires
        key.len() <= u64::MAX,
    ensures
        parse_entries(entry_bytes(key, id) + rest) == behind(seq![(key, id)], parse_entries(rest)),
{
    let b = entry_bytes(key, id) + rest;
    assert(b =~= field(key) + (le64(id) + rest));
    lemma_parse_field_of_field(key, le64(id) + rest);
    lemma_parse_u64_of_le64(id, rest);
    assert(b.len() > rest.len());
}

/// A list of entries that was written is read back.
pub proof fn lemma_parse_entries_of_bytes(entries: Seq<Entry>)
    requires
        keys_fit(entries),
    ensures
        parse_entries(entries_bytes(entries)) == Some(entries),
    decreases entries.len(),
{
    if entries.len() > 0 {
        let (key, id) = entries[0];
        let tail = entries.drop_first();
        assert(entries =~= seq![(key, id)] + tail);
        assert forall|i: int| 0 <= i < tail.len() implies (#[trigger] tail[i]).0.len()
            <= u64::MAX by {
            assert(tail[i] == entries[i + 1]);
        }
        lemma_entries_bytes_of_first(key, id, tail);
        lemma_parse_entries_of_bytes(tail);
        lemma_parse_entry(key, id, entries_bytes(tail));
    }
}

/// What is read as a list of entries was written as that list.
pub proof fn lemma_parse_entries_is_exact(b: Seq<u8>)
    ensures
        parse_entries(b) matches Some(entries) ==> keys_fit(entries) && entries_bytes(entries)
            == b,
    decreases b.len(),
{
    if b.len() > 0 {
        if let Some(entries) = parse_entries(b) {
            lemma_parse_field_is_exact(b);
            if let Some((key, after_key)) = parse_field(b) {
                lemma_parse_u64_is_exact(after_key);
                if let Some((id, rest)) = parse_u64(after_key) {
                    lemma_parse_entries_is_exact(rest);
                    if let Some(tail) = parse_entries(rest) {
                        assert(entries == seq![(key, id)] + tail);
                        lemma_entries_bytes_of_first(key, id, tail);
                        assert(b =~= entry_bytes(key, id) + rest);
                        assert forall|i: int| 0 <= i < entries.len() implies (
                        #[trigger] entries[i]).0.len() <= u64::MAX by {
                            if i > 0 {
                                assert(entries[i] == tail[i - 1]);
                            }
                        }
                    }
                }
            }
        }
    }
}

/// A block with one more entry at its end is read as the list with that
/// entry at its end.
pub proof fn lemma_parse_entries_after_append(b: Seq<u8>, key: Seq<u8>, id: ActorID)
    requires
        parse_entries(b) is Some,
        key.len() <= u64::MAX,
    ensures
        parse_entries(b + entry_bytes(key, id)) == Some(parse_entries(b)->0.push((key, id))),
{
    let entries = parse_entries(b)->0;
    let more = entries.push((key, id));
    lemma_parse_entries_is_exact(b);
    assert(more.drop_last() =~= entries);
    assert(keys_fit(more)) by {
        assert forall|i: int| 0 <= i < more.len() implies (#[trigger] more[i]).0.len()
            <= u64::MAX by {
            if i < entries.len() {
                assert(more[i] == entries[i]);
            }
        }
    }
    lemma_parse_entries_of_bytes(more);
}

/// Looks `key` up in a block of entries. `None` where the block is not a
/// list of entries; else the ID that the list gives to `key`, if any.
pub fn find_in_block(block: &[u8], key: &[u8]) -> (r: Option<Option<ActorID>>)
    ensures
        r == match parse_entries(block@) {
            None => None::<Option<ActorID>>,
            Some(entries) => Some(lookup(entries, key@)),
        },
{
    let n: usize = block.len();
    let mut pos: usize = 0;
    let mut found: Option<ActorID> = None;
    let ghost mut seen: Seq<Entry> = Seq::empty();
    proof {
        assert(block@.skip(0) =~= block@);
        assert(behind(seen, parse_entries(block@)) == parse_entries(block@)) by {
            if let Some(entries) = parse_entries(block@) {
                assert(seen + entries =~= entries);
            }
        }
    }
    while pos < n
        invariant
            pos <= n,
            n == block@.len(),
            parse_entries(block@) == behind(seen, parse_entries(block@.skip(pos as int))),
            found == lookup(seen, key@),
        decreases n - pos,
    {
        let ghost tail = block@.skip(pos as int);
        let (start, end) = match take_field(block, pos) {
            Some(span) => span,
            None => {
                return None;
            },
        };
        let (id, next) = match take_u64(block, end) {
            Some(read) => read,
            None => {
                return None;
            },
        };
        let entry_key = slice_subrange(block, start, end);
        proof {
            let rest = block@.skip(next as int);
            let entry: Entry = (entry_key@, id);
            assert(rest.len() < tail.len());
            assert(parse_entries(tail) == behind(seq![entry], parse_entries(rest)));
            if let Some(entries) = parse_entries(rest) {
                assert(seen + (seq![entry] + entries) =~= seen.push(entry) + entries);
            }
            lemma_lookup_after_push(seen, entry_key@, id, key@);
            seen = seen.push(entry);
        }
        if bytes_eq(entry_key, key) {
            found = Some(id);
        }
        pos = next;
    }
    proof {
        assert(block@.skip(pos as int) =~= Seq::<u8>::empty());
        assert(seen + Seq::<Entry>::empty() =~= seen);
    }
    Some(found)
}

/// The block `block` with one more entry at its end.
pub fn append_entry(block: &[u8], key: &[u8], id: ActorID) -> (out: Vec<u8>)
    ensures
        out@ == block@ + entry_bytes(key@, id),
{
    let mut out = copy_bytes(block);
    put_field(&mut out, key);
    put_u64(&mut out, id);
    assert(out@ =~= block@ + entry_bytes(key@, id));
    out
}

} // verus!

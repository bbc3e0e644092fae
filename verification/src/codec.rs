//! The layout of blocks: 64-bit numbers in eight bytes, the low byte first,
//! and byte strings behind their length.
//!
//! Each reader is stated against a parser on sequences that yields the value
//! read and the bytes that follow it; the lemmas say that a parser reads back
//! what the writer wrote, and nothing else.

use vstd::prelude::*;
use vstd::bytes::{
    lemma_auto_spec_u64_to_from_le_bytes,
    spec_u64_from_le_bytes,
    spec_u64_to_le_bytes,
    u64_from_le_bytes,
    u64_to_le_bytes,
};
use vstd::slice::slice_subrange;
use crate::bytes::push_all;

verus! {

/// A 64-bit number in eight bytes, the low byte first.
pub open spec fn le64(x: u64) -> Seq<u8> {
    spec_u64_to_le_bytes(x)
}

/// A byte string behind its length.
pub open spec fn field(payload: Seq<u8>) -> Seq<u8> {
    le64(payload.len() as u64) + payload
}

/// Reads a number from the front of `b`: the number and the bytes after it,
/// or `None` where `b` is shorter than eight bytes.
pub open spec fn parse_u64(b: Seq<u8>) -> Option<(u64, Seq<u8>)> {
    if b.len() < 8 {
        None
    } else {
        Some((spec_u64_from_le_bytes(b.subrange(0, 8)), b.skip(8)))
    }
}

/// Reads a byte string from the front of `b`: the string and the bytes after
/// it, or `None` where `b` ends before the string does.
pub open spec fn parse_field(b: Seq<u8>) -> Option<(Seq<u8>, Seq<u8>)> {
    match parse_u64(b) {
        None => None,
        Some((n, rest)) => if rest.len() < n {
            None
        } else {
            Some((rest.subrange(0, n as int), rest.skip(n as int)))
        },
    }
}

/// A number that was written is read back, with what follows it.
pub proof fn lemma_parse_u64_of_le64(x: u64, rest: Seq<u8>)
    ensures
        le64(x).len() == 8,
        parse_u64(le64(x) + rest) == Some((x, rest)),
{
    lemma_auto_spec_u64_to_from_le_bytes();
    let b = le64(x) + rest;
    assert(b.subrange(0, 8) =~= le64(x));
    assert(b.skip(8) =~= rest);
}

/// What is read as a number was written as that number.
pub proof fn lemma_parse_u64_is_exact(b: Seq<u8>)
    ensures
        parse_u64(b) matches Some((x, rest)) ==> b == le64(x) + rest,
{
    if b.len() >= 8 {
        lemma_auto_spec_u64_to_from_le_bytes();
        let head = b.subrange(0, 8);
        assert(spec_u64_to_le_bytes(spec_u64_from_le_bytes(head)) == head);
        assert(b =~= head + b.skip(8));
    }
}

/// A byte string that was written is read back, with what follows it.
pub proof fn lemma_parse_field_of_field(payload: Seq<u8>, rest: Seq<u8>)
    requires
        payload.len() <= u64::MAX,
    ensures
        parse_field(field(payload) + rest) == Some((payload, rest)),
{
    let n = payload.len() as u64;
    assert(field(payload) + rest =~= le64(n) + (payload + rest));
    lemma_parse_u64_of_le64(n, payload + rest);
    assert((payload + rest).subrange(0, n as int) =~= payload);
    assert((payload + rest).skip(n as int) =~= rest);
}

/// What is read as a byte string was written as that byte string.
pub proof fn lemma_parse_field_is_exact(b: Seq<u8>)
    ensures
        parse_field(b) matches Some((payload, rest)) ==> payload.len() <= u64::MAX && rest.len()
            < b.len() && b == field(payload) + rest,
{
    if let Some((payload, rest)) = parse_field(b) {
        lemma_parse_u64_is_exact(b);
        lemma_auto_spec_u64_to_from_le_bytes();
        if let Some((n, after)) = parse_u64(b) {
            assert(after =~= payload + rest);
            assert(b =~= le64(n) + payload + rest);
        }
    }
}

/// Appends `x` in eight bytes to `out`.
pub fn put_u64(out: &mut Vec<u8>, x: u64)
    ensures
        final(out)@ == old(out)@ + le64(x),
{
    let bytes = u64_to_le_bytes(x);
    push_all(out, bytes.as_slice());
}

/// Appends `payload` behind its length to `out`.
pub fn put_field(out: &mut Vec<u8>, payload: &[u8])
    ensures
        final(out)@ == old(out)@ + field(payload@),
{
    put_u64(out, payload.len() as u64);
    push_all(out, payload);
    assert(out@ =~= old(out)@ + field(payload@));
}

/// Reads a number at position `pos` of `bytes`: the number and the position
/// after it. There is none to read at a position beyond the end.
pub fn take_u64(bytes: &[u8], pos: usize) -> (r: Option<(u64, usize)>)
    ensures
        pos > bytes@.len() ==> r is None,
        pos <= bytes@.len() ==> match parse_u64(bytes@.skip(pos as int)) {
            None => r is None,
            Some((x, rest)) => r == Some((x, (pos + 8) as usize)) && pos + 8 <= bytes@.len()
                && rest == bytes@.skip(pos + 8),
        },
{
    let n: usize = bytes.len();
    if pos > n || n - pos < 8 {
        return None;
    }
    let x = u64_from_le_bytes(slice_subrange(bytes, pos, pos + 8));
    proof {
        let tail = bytes@.skip(pos as int);
        assert(tail.subrange(0, 8) =~= bytes@.subrange(pos as int, pos + 8));
        assert(tail.skip(8) =~= bytes@.skip(pos + 8));
    }
    Some((x, pos + 8))
}

/// Reads a byte string at position `pos` of `bytes`: the positions where the
/// string starts and where it ends. There is none to read at a position
/// beyond the end.
pub fn take_field(bytes: &[u8], pos: usize) -> (r: Option<(usize, usize)>)
    ensures
        pos > bytes@.len() ==> r is None,
        pos <= bytes@.len() ==> match parse_field(bytes@.skip(pos as int)) {
            None => r is None,
            Some((payload, rest)) => r matches Some((start, end)) && start == pos + 8 && end
                == start + payload.len() && end <= bytes@.len() && payload == bytes@.subrange(
                start as int,
                end as int,
            ) && rest == bytes@.skip(end as int),
        },
{
    let n: usize = bytes.len();
    match take_u64(bytes, pos) {
        None => None,
        Some((len, start)) => {
            if ((n - start) as u64) < len {
                return None;
            }
            let end: usize = start + len as usize;
            proof {
                let after = bytes@.skip(start as int);
                assert(after.subrange(0, len as int) =~= bytes@.subrange(start as int, end as int));
                assert(after.skip(len as int) =~= bytes@.skip(end as int));
            }
            Some((start, end))
        },
    }
}

} // verus!

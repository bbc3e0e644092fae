//! One version's state of the init actor, and its form in a block.
//!
//! The state names the block that holds the address map, counts the IDs
//! given out, and carries the name of the network. In a block it is the
//! identifier of the map behind its length, the next ID in eight bytes, and
//! the name in UTF-8 behind its length.

use vstd::prelude::*;
use vstd::slice::slice_subrange;
use vstd::utf8::{decode_utf8, encode_utf8, valid_utf8};
use crate::address::ActorID;
use crate::bytes::copy_bytes;
use crate::cid::Cid;
use crate::codec::{
    field,
    le64,
    lemma_parse_field_is_exact,
    lemma_parse_field_of_field,
    lemma_parse_u64_is_exact,
    lemma_parse_u64_of_le64,
    parse_field,
    parse_u64,
    put_field,
    put_u64,
    take_field,
    take_u64,
};

verus! {

/// What a state holds, as plain values.
pub struct StateFields {
    /// The identifier of the block that holds the address map.
    pub address_map: Seq<u8>,
    /// The ID that the next address will be given.
    pub next_id: ActorID,
    /// The name of the network.
    pub network_name: Seq<char>,
}

/// The state of the init actor in one version of it.
#[derive(Clone, Debug, PartialEq, Eq)]
pub struct InitState {
    /// The identifier of the block that holds the address map.
    pub address_map: Cid,
    /// The ID that the next address will be given.
    pub next_id: ActorID,
    /// The name of the network.
    pub network_name: String,
}

impl View for InitState {
    type V = StateFields;

    open spec fn view(&self) -> StateFields {
        StateFields {
            address_map: self.address_map@,
            next_id: self.next_id,
            network_name: self.network_name@,
        }
    }
}

/// A state in bytes.
pub open spec fn state_bytes(f: StateFields) -> Seq<u8> {
    field(f.address_map) + le64(f.next_id) + field(encode_utf8(f.network_name))
}

/// Reads a block as a state, or `None` where the block is not one: where a
/// part is missing or cut short, where bytes follow the name, or where the
/// name is not UTF-8.
pub open spec fn parse_state(b: Seq<u8>) -> Option<StateFields> {
    match parse_field(b) {
        None => None,
        Some((address_map, after_map)) => match parse_u64(after_map) {
            None => None,
            Some((next_id, after_id)) => match parse_field(after_id) {
                None => None,
                Some((name, rest)) => if rest.len() == 0 && valid_utf8(name) {
                    Some(StateFields { address_map, next_id, network_name: decode_utf8(name) })
                } else {
                    None
                },
            },
        },
    }
}

/// A state that was written is read back.
pub proof fn lemma_parse_state_of_bytes(f: StateFields)
    requires
        f.address_map.len() <= u64::MAX,
        encode_utf8(f.network_name).len() <= u64::MAX,
    ensures
        parse_state(state_bytes(f)) == Some(f),
{
    broadcast use vstd::utf8::encode_utf8_valid_utf8;
    broadcast use vstd::utf8::encode_utf8_decode_utf8;

    let name = encode_utf8(f.network_name);
    let after_id = field(name);
    let after_map = le64(f.next_id) + after_id;
    assert(state_bytes(f) =~= field(f.address_map) + after_map);
    lemma_parse_field_of_field(f.address_map, after_map);
    lemma_parse_u64_of_le64(f.next_id, after_id);
    assert(after_id =~= field(name) + Seq::<u8>::empty());
    lemma_parse_field_of_field(name, Seq::<u8>::empty());
}

/// What is read as a state was written as that state.
pub proof fn lemma_parse_state_is_exact(b: Seq<u8>)
    ensures
        parse_state(b) matches Some(f) ==> state_bytes(f) == b,
{
    broadcast use vstd::utf8::decode_utf8_encode_utf8;

    if let Some(f) = parse_state(b) {
        lemma_parse_field_is_exact(b);
        if let Some((address_map, after_map)) = parse_field(b) {
            lemma_parse_u64_is_exact(after_map);
            if let Some((next_id, after_id)) = parse_u64(after_map) {
                lemma_parse_field_is_exact(after_id);
                if let Some((name, rest)) = parse_field(after_id) {
                    assert(encode_utf8(decode_utf8(name)) == name);
                    assert(after_id =~= field(name));
                    assert(b =~= state_bytes(f));
                }
            }
        }
    }
}

/// `String::from_utf8` of the standard library, with its error set aside:
/// the bytes are accepted exactly when they are valid UTF-8, and they are
/// then the bytes of the string.
#[verifier::external_body]
fn string_from_utf8(bytes: Vec<u8>) -> (r: Option<String>)
    ensures
        r is Some <==> valid_utf8(bytes@),
        r matches Some(s) ==> encode_utf8(s@) == bytes@,
{
    match String::from_utf8(bytes) {
        Ok(s) => Some(s),
        Err(_) => None,
    }
}

impl InitState {
    /// A state with the given parts.
    pub fn new(address_map: Cid, next_id: ActorID, network_name: String) -> (s: InitState)
        ensures
            s.address_map == address_map,
            s.next_id == next_id,
            s.network_name == network_name,
    {
        InitState { address_map, next_id, network_name }
    }

    /// This state in bytes.
    pub fn encode(&self) -> (out: Vec<u8>)
        ensures
            out@ == state_bytes(self@),
            parse_state(out@) == Some(self@),
    {
        let mut out: Vec<u8> = Vec::new();
        put_field(&mut out, self.address_map.bytes.as_slice());
        put_u64(&mut out, self.next_id);
        let name = self.network_name.as_str().as_bytes();
        put_field(&mut out, name);
        let map_len: usize = self.address_map.bytes.len();
        let name_len: usize = name.len();
        proof {
            assert(out@ =~= state_bytes(self@));
            assert(map_len <= u64::MAX && name_len <= u64::MAX);
            lemma_parse_state_of_bytes(self@);
        }
        out
    }

    /// Reads a block as a state: the state that `parse_state` reads, and
    /// `None` where it reads none.
    pub fn decode(block: &[u8]) -> (r: Option<InitState>)
        ensures
            match parse_state(block@) {
                None => r is None,
                Some(f) => r matches Some(s) && s@ == f,
            },
    {
        let n: usize = block.len();
        assert(block@.skip(0) =~= block@);
        let (map_start, map_end) = match take_field(block, 0) {
            Some(span) => span,
            None => {
                return None;
            },
        };
        let (next_id, after_id) = match take_u64(block, map_end) {
            Some(read) => read,
            None => {
                return None;
            },
        };
        let (name_start, name_end) = match take_field(block, after_id) {
            Some(span) => span,
            None => {
                return None;
            },
        };
        if name_end != n {
            return None;
        }
        let name = copy_bytes(slice_subrange(block, name_start, name_end));
        match string_from_utf8(name) {
            None => None,
            Some(network_name) => {
                proof {
                    vstd::utf8::encode_utf8_decode_utf8(network_name@);
                }
                let address_map = Cid {
                    bytes: copy_bytes(slice_subrange(block, map_start, map_end)),
                };
                Some(InitState { address_map, next_id, network_name })
            },
        }
    }
}

} // verus!

//! Actor addresses and their byte form.
//!
//! An address is a protocol and a payload. In bytes it is the protocol's
//! number followed by the payload: an ID as a varint, a hash or a public key
//! as it stands.

use vstd::prelude::*;
use vstd::slice::slice_subrange;
use crate::bytes::push_all;
use crate::varint::{read_varint, varint, write_varint};

verus! {

/// The sequential number behind an ID address.
pub type ActorID = u64;

/// What an address goes by: an ID, the hash of a key or of an actor, or a
/// public key.
#[derive(Clone, Copy, Debug, PartialEq, Eq, Structural)]
pub enum Protocol {
    ID,
    Secp256k1,
    Actor,
    BLS,
}

/// What an address holds, by protocol.
#[derive(Clone, Copy, Debug, PartialEq, Eq)]
pub enum Payload {
    /// The sequential number of an actor.
    ID(u64),
    /// The 20-byte hash of a Secp256k1 public key.
    Secp256k1([u8; 20]),
    /// The 20-byte hash that names an actor.
    Actor([u8; 20]),
    /// A BLS public key of 48 bytes.
    BLS([u8; 48]),
}

/// Why a byte string is not an address.
#[derive(Clone, Copy, Debug, PartialEq, Eq, Structural)]
pub enum AddressError {
    /// There is no protocol byte.
    Empty,
    /// The protocol byte names no protocol.
    UnknownProtocol,
    /// The payload is not of the length, or the form, its protocol asks for.
    InvalidPayload,
}

/// The address of an actor.
#[derive(Clone, Copy, Debug, PartialEq, Eq)]
pub struct Address {
    pub payload: Payload,
}

/// The number that stands for `protocol` in the byte form of an address.
pub open spec fn protocol_byte(protocol: Protocol) -> u8 {
    match protocol {
        Protocol::ID => 0,
        Protocol::Secp256k1 => 1,
        Protocol::Actor => 2,
        Protocol::BLS => 3,
    }
}

impl Address {
    /// The protocol of this address.
    pub open spec fn spec_protocol(&self) -> Protocol {
        match self.payload {
            Payload::ID(_) => Protocol::ID,
            Payload::Secp256k1(_) => Protocol::Secp256k1,
            Payload::Actor(_) => Protocol::Actor,
            Payload::BLS(_) => Protocol::BLS,
        }
    }

    /// The payload of this address in bytes.
    pub open spec fn payload_bytes(&self) -> Seq<u8> {
        match self.payload {
            Payload::ID(id) => varint(id as nat),
            Payload::Secp256k1(hash) => hash@,
            Payload::Actor(hash) => hash@,
            Payload::BLS(key) => key@,
        }
    }

    /// The byte form of this address: the protocol's number, then the payload.
    pub open spec fn bytes(&self) -> Seq<u8> {
        seq![protocol_byte(self.spec_protocol())] + self.payload_bytes()
    }

    /// The ID address of the actor numbered `id`.
    pub fn new_id(id: ActorID) -> (a: Address)
        ensures
            a.payload == Payload::ID(id),
    {
        Address { payload: Payload::ID(id) }
    }

    /// The address of the Secp256k1 key with the given hash.
    pub fn new_secp256k1(hash: [u8; 20]) -> (a: Address)
        ensures
            a.payload == Payload::Secp256k1(hash),
    {
        Address { payload: Payload::Secp256k1(hash) }
    }

    /// The address of the actor with the given hash.
    pub fn new_actor(hash: [u8; 20]) -> (a: Address)
        ensures
            a.payload == Payload::Actor(hash),
    {
        Address { payload: Payload::Actor(hash) }
    }

    /// The address of the given BLS public key.
    pub fn new_bls(key: [u8; 48]) -> (a: Address)
        ensures
            a.payload == Payload::BLS(key),
    {
        Address { payload: Payload::BLS(key) }
    }

    /// The protocol of this address.
    pub fn protocol(&self) -> (p: Protocol)
        ensures
            p == self.spec_protocol(),
    {
        match self.payload {
            Payload::ID(_) => Protocol::ID,
            Payload::Secp256k1(_) => Protocol::Secp256k1,
            Payload::Actor(_) => Protocol::Actor,
            Payload::BLS(_) => Protocol::BLS,
        }
    }

    /// The number behind an ID address, and `None` for every other address.
    pub fn id(&self) -> (r: Option<ActorID>)
        ensures
            r matches Some(id) ==> self.payload == Payload::ID(id),
            r is None ==> self.spec_protocol() != Protocol::ID,
    {
        match self.payload {
            Payload::ID(id) => Some(id),
            _ => None,
        }
    }

    /// The byte form of this address.
    pub fn to_bytes(&self) -> (out: Vec<u8>)
        ensures
            out@ == self.bytes(),
    {
        let mut out: Vec<u8> = Vec::new();
        match self.payload {
            Payload::ID(id) => {
                out.push(0u8);
                assert(out@ =~= seq![0u8]);
                write_varint(&mut out, id);
            },
            Payload::Secp256k1(hash) => {
                out.push(1u8);
                push_all(&mut out, &hash);
                assert(out@ =~= seq![1u8] + hash@);
            },
            Payload::Actor(hash) => {
                out.push(2u8);
                push_all(&mut out, &hash);
                assert(out@ =~= seq![2u8] + hash@);
            },
            Payload::BLS(key) => {
                out.push(3u8);
                push_all(&mut out, &key);
                assert(out@ =~= seq![3u8] + key@);
            },
        }
        out
    }

    /// Reads an address from its byte form. Succeeds on exactly the byte
    /// strings that are the byte form of an address, and yields that address;
    /// every other input is refused with the reason.
    pub fn from_bytes(bytes: &[u8]) -> (r: Result<Address, AddressError>)
        ensures
            r matches Ok(a) ==> a.bytes() == bytes@,
            r is Err ==> forall|a: Address| a.bytes() != bytes@,
            r == Err::<Address, AddressError>(AddressError::Empty) <==> bytes@.len() == 0,
            r == Err::<Address, AddressError>(AddressError::UnknownProtocol) <==> bytes@.len() > 0
                && bytes@[0] > 3,
    {
        if bytes.len() == 0 {
            assert forall|a: Address| a.bytes() != bytes@ by {
                assert(a.bytes().len() > 0);
            }
            return Err(AddressError::Empty);
        }
        let tag: u8 = bytes[0];
        let n: usize = bytes.len();
        let ghost payload = bytes@.subrange(1, n as int);
        assert(bytes@ =~= seq![tag] + payload);
        assert forall|a: Address| a.bytes() == bytes@ implies protocol_byte(a.spec_protocol())
            == tag && a.payload_bytes() == payload by {
            assert(a.bytes()[0] == tag);
            assert(a.bytes().subrange(1, n as int) =~= a.payload_bytes());
        }
        if tag == 0 {
            match read_varint(slice_subrange(bytes, 1, n)) {
                Some(id) => Ok(Address { payload: Payload::ID(id) }),
                None => Err(AddressError::InvalidPayload),
            }
        } else if tag == 1 || tag == 2 {
            if n - 1 != 20 {
                return Err(AddressError::InvalidPayload);
            }
            let mut hash: [u8; 20] = [0u8; 20];
            let mut i: usize = 0;
            while i < 20
                invariant
                    i <= 20,
                    n == 21,
                    n == bytes@.len(),
                    forall|j: int| 0 <= j < i ==> hash@[j] == bytes@[j + 1],
                decreases 20 - i,
            {
                hash[i] = bytes[i + 1];
                i = i + 1;
            }
            assert(hash@ =~= payload);
            if tag == 1 {
                Ok(Address { payload: Payload::Secp256k1(hash) })
            } else {
                Ok(Address { payload: Payload::Actor(hash) })
            }
        } else if tag == 3 {
            if n - 1 != 48 {
                return Err(AddressError::InvalidPayload);
            }
            let mut key: [u8; 48] = [0u8; 48];
            let mut i: usize = 0;
            while i < 48
                invariant
                    i <= 48,
                    n == 49,
                    n == bytes@.len(),
                    forall|j: int| 0 <= j < i ==> key@[j] == bytes@[j + 1],
                decreases 48 - i,
            {
                key[i] = bytes[i + 1];
                i = i + 1;
            }
            assert(key@ =~= payload);
            Ok(Address { payload: Payload::BLS(key) })
        } else {
            Err(AddressError::UnknownProtocol)
        }
    }
}

} // verus!

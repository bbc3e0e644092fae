//! Serialized parameters and return values, and the framing of a byte string
//! within them.

use vstd::prelude::*;
use vstd::slice::slice_subrange;
use crate::address::Address;
use crate::bytes::{copy_bytes, push_all};
use crate::varint::lemma_varint_len_u64;

verus! {

/// A byte string of up to 255 bytes as it is framed within serialized data:
/// a header that tells its length, then the bytes. A length below 24 shares
/// the one header byte; a longer one follows the header `0x58` in a byte of
/// its own.
pub open spec fn byte_string(payload: Seq<u8>) -> Seq<u8> {
    if payload.len() < 24 {
        seq![(0x40 + payload.len()) as u8] + payload
    } else {
        seq![0x58u8, payload.len() as u8] + payload
    }
}

/// An address as the parameter of a method: its byte form, framed as a byte
/// string.
pub open spec fn address_params(a: Address) -> Seq<u8> {
    byte_string(a.bytes())
}

/// The byte form of an address is at most 49 bytes long.
pub proof fn lemma_address_bytes_len(a: Address)
    ensures
        2 <= a.bytes().len() <= 49,
{
    match a.payload {
        crate::address::Payload::ID(id) => {
            lemma_varint_len_u64(id);
        },
        _ => {},
    }
}

/// Opaque serialized data: the parameters handed to a method, or the value
/// that it returns.
#[derive(Debug, PartialEq, Eq)]
pub struct Serialized {
    bytes: Vec<u8>,
}

impl View for Serialized {
    type V = Seq<u8>;

    closed spec fn view(&self) -> Seq<u8> {
        self.bytes@
    }
}

impl Clone for Serialized {
    fn clone(&self) -> (s: Serialized)
        ensures
            s@ == self@,
    {
        Serialized { bytes: copy_bytes(self.bytes.as_slice()) }
    }
}

impl Default for Serialized {
    /// The empty payload.
    fn default() -> (s: Serialized)
        ensures
            s@ == Seq::<u8>::empty(),
    {
        Serialized { bytes: Vec::new() }
    }
}

impl Serialized {
    /// The payload with the given bytes.
    pub fn new(bytes: Vec<u8>) -> (s: Serialized)
        ensures
            s@ == bytes@,
    {
        Serialized { bytes }
    }

    /// The bytes of this payload.
    pub fn bytes(&self) -> (b: &[u8])
        ensures
            b@ == self@,
    {
        self.bytes.as_slice()
    }

    /// Whether this payload holds no bytes.
    pub fn is_empty(&self) -> (r: bool)
        ensures
            r == (self@.len() == 0),
    {
        self.bytes.len() == 0
    }

    /// The payload that hands `a` to a method as its one parameter.
    pub fn from_address(a: &Address) -> (s: Serialized)
        ensures
            s@ == address_params(*a),
    {
        let raw = a.to_bytes();
        proof {
            lemma_address_bytes_len(*a);
        }
        let mut out: Vec<u8> = Vec::new();
        write_byte_string(&mut out, raw.as_slice());
        assert(out@ =~= byte_string(raw@));
        Serialized { bytes: out }
    }

    /// Reads this payload as one address. Succeeds on exactly the payloads
    /// that `from_address` makes, and yields the address that was framed.
    pub fn to_address(&self) -> (r: Option<Address>)
        ensures
            r matches Some(a) ==> address_params(a) == self@,
            r is None ==> forall|a: Address| address_params(a) != self@,
    {
        match read_byte_string(self.bytes.as_slice()) {
            Some(raw) => match Address::from_bytes(raw) {
                Ok(a) => Some(a),
                Err(_) => {
                    assert forall|a: Address| address_params(a) != self@ by {
                        if address_params(a) == self@ {
                            lemma_address_bytes_len(a);
                            lemma_byte_string_is_injective(a.bytes(), raw@);
                        }
                    }
                    None
                },
            },
            None => {
                assert forall|a: Address| address_params(a) != self@ by {
                    lemma_address_bytes_len(a);
                }
                None
            },
        }
    }
}

/// Two byte strings with the same framing are the same.
pub proof fn lemma_byte_string_is_injective(p: Seq<u8>, q: Seq<u8>)
    requires
        p.len() <= 255,
        q.len() <= 255,
        byte_string(p) == byte_string(q),
    ensures
        p == q,
{
    let fp = byte_string(p);
    let fq = byte_string(q);
    assert(fp[0] == fq[0]);
    if p.len() < 24 {
        assert(q.len() < 24);
        assert(p =~= fp.subrange(1, fp.len() as int));
        assert(q =~= fq.subrange(1, fq.len() as int));
    } else {
        assert(q.len() >= 24);
        assert(p =~= fp.subrange(2, fp.len() as int));
        assert(q =~= fq.subrange(2, fq.len() as int));
    }
}

/// Appends the framing of `payload` to `out`.
fn write_byte_string(out: &mut Vec<u8>, payload: &[u8])
    requires
        payload@.len() <= 255,
    ensures
        final(out)@ == old(out)@ + byte_string(payload@),
{
    let n: usize = payload.len();
    if n < 24 {
        out.push((0x40 + n) as u8);
        push_all(out, payload);
        assert(out@ =~= old(out)@ + byte_string(payload@));
    } else {
        out.push(0x58u8);
        out.push(n as u8);
        push_all(out, payload);
        assert(out@ =~= old(out)@ + byte_string(payload@));
    }
}

/// Reads `bytes` as the framing of one byte string. Succeeds on exactly the
/// framings of byte strings of up to 255 bytes, and yields the byte string.
pub fn read_byte_string(bytes: &[u8]) -> (r: Option<&[u8]>)
    ensures
        r matches Some(payload) ==> payload@.len() <= 255 && byte_string(payload@) == bytes@,
        r is None ==> forall|payload: Seq<u8>|
            payload.len() <= 255 ==> #[trigger] byte_string(payload) != bytes@,
{
    let n: usize = bytes.len();
    if n == 0 {
        return None;
    }
    let head: u8 = bytes[0];
    if 0x40 <= head && head < 0x58 {
        let len: usize = (head - 0x40) as usize;
        if n - 1 != len {
            assert forall|payload: Seq<u8>| payload.len() <= 255 implies #[trigger] byte_string(
                payload,
            ) != bytes@ by {
                if byte_string(payload) == bytes@ {
                    assert(byte_string(payload)[0] == head);
                }
            }
            return None;
        }
        let payload = slice_subrange(bytes, 1, n);
        assert(byte_string(payload@) =~= bytes@);
        Some(payload)
    } else if head == 0x58 {
        if n < 2 {
            return None;
        }
        let len: usize = bytes[1] as usize;
        if len < 24 || n - 2 != len {
            assert forall|payload: Seq<u8>| payload.len() <= 255 implies #[trigger] byte_string(
                payload,
            ) != bytes@ by {
                if byte_string(payload) == bytes@ {
                    assert(byte_string(payload)[0] == head);
                    assert(byte_string(payload)[1] == bytes@[1]);
                }
            }
            return None;
        }
        let payload = slice_subrange(bytes, 2, n);
        assert(byte_string(payload@) =~= bytes@);
        Some(payload)
    } else {
        assert forall|payload: Seq<u8>| payload.len() <= 255 implies #[trigger] byte_string(
            payload,
        ) != bytes@ by {
            if byte_string(payload) == bytes@ {
                assert(byte_string(payload)[0] == head);
            }
        }
        None
    }
}

} // verus!

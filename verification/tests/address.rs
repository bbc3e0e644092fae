use metered_vm::address::{Address, AddressError, Payload, Protocol};
use metered_vm::bytes::push_all;
use metered_vm::varint::{read_varint, write_varint};

fn encoded(v: u64) -> Vec<u8> {
    let mut out = Vec::new();
    write_varint(&mut out, v);
    out
}

#[test]
fn varint_of_small_and_large_numbers() {
    assert_eq!(encoded(0), vec![0]);
    assert_eq!(encoded(1), vec![1]);
    assert_eq!(encoded(127), vec![127]);
    assert_eq!(encoded(128), vec![0x80, 0x01]);
    assert_eq!(encoded(300), vec![0xac, 0x02]);
    assert_eq!(encoded(16384), vec![0x80, 0x80, 0x01]);
    assert_eq!(
        encoded(u64::MAX),
        vec![0xff, 0xff, 0xff, 0xff, 0xff, 0xff, 0xff, 0xff, 0xff, 0x01]
    );
}

#[test]
fn varint_is_appended_to_what_is_there() {
    let mut out = vec![9, 9];
    write_varint(&mut out, 300);
    assert_eq!(out, vec![9, 9, 0xac, 0x02]);
}

#[test]
fn varint_round_trip() {
    for v in [0u64, 1, 127, 128, 255, 256, 16383, 16384, 1 << 32, u64::MAX - 1, u64::MAX] {
        assert_eq!(read_varint(&encoded(v)), Some(v));
    }
}

#[test]
fn varint_that_is_not_canonical_is_refused() {
    assert_eq!(read_varint(&[]), None);
    // unfinished
    assert_eq!(read_varint(&[0x80]), None);
    assert_eq!(read_varint(&[0xff, 0xff]), None);
    // zero digit on top
    assert_eq!(read_varint(&[0x80, 0x00]), None);
    assert_eq!(read_varint(&[0x81, 0x80, 0x00]), None);
    // bytes after the end
    assert_eq!(read_varint(&[0x01, 0x01]), None);
    // more than 64 bits
    assert_eq!(
        read_varint(&[0xff, 0xff, 0xff, 0xff, 0xff, 0xff, 0xff, 0xff, 0xff, 0x02]),
        None
    );
    assert_eq!(
        read_varint(&[0x80, 0x80, 0x80, 0x80, 0x80, 0x80, 0x80, 0x80, 0x80, 0x80, 0x01]),
        None
    );
}

#[test]
fn address_protocols_and_ids() {
    let id = Address::new_id(1024);
    assert_eq!(id.protocol(), Protocol::ID);
    assert_eq!(id.id(), Some(1024));
    assert_eq!(id.payload, Payload::ID(1024));
    let secp = Address::new_secp256k1([7; 20]);
    assert_eq!(secp.protocol(), Protocol::Secp256k1);
    assert_eq!(secp.id(), None);
    let actor = Address::new_actor([7; 20]);
    assert_eq!(actor.protocol(), Protocol::Actor);
    assert_ne!(actor, secp);
    let bls = Address::new_bls([1; 48]);
    assert_eq!(bls.protocol(), Protocol::BLS);
    assert_eq!(bls.id(), None);
}

#[test]
fn address_byte_forms() {
    assert_eq!(Address::new_id(0).to_bytes(), vec![0, 0]);
    assert_eq!(Address::new_id(1024).to_bytes(), vec![0, 0x80, 0x08]);
    let mut secp = vec![1u8];
    secp.extend_from_slice(&[7; 20]);
    assert_eq!(Address::new_secp256k1([7; 20]).to_bytes(), secp);
    let mut actor = vec![2u8];
    actor.extend_from_slice(&[8; 20]);
    assert_eq!(Address::new_actor([8; 20]).to_bytes(), actor);
    let mut bls = vec![3u8];
    bls.extend_from_slice(&[9; 48]);
    assert_eq!(Address::new_bls([9; 48]).to_bytes(), bls);
}

#[test]
fn address_round_trip() {
    let mut hash = [0u8; 20];
    for (i, b) in hash.iter_mut().enumerate() {
        *b = i as u8;
    }
    let mut key = [0u8; 48];
    for (i, b) in key.iter_mut().enumerate() {
        *b = 200 - i as u8;
    }
    for a in [
        Address::new_id(0),
        Address::new_id(99),
        Address::new_id(u64::MAX),
        Address::new_secp256k1(hash),
        Address::new_actor(hash),
        Address::new_bls(key),
    ] {
        assert_eq!(Address::from_bytes(&a.to_bytes()), Ok(a));
    }
}

#[test]
fn bytes_that_are_no_address_are_refused() {
    assert_eq!(Address::from_bytes(&[]), Err(AddressError::Empty));
    assert_eq!(Address::from_bytes(&[4, 1, 2]), Err(AddressError::UnknownProtocol));
    assert_eq!(Address::from_bytes(&[255]), Err(AddressError::UnknownProtocol));
    // an ID with no payload, with a payload that is not canonical, or too large
    assert_eq!(Address::from_bytes(&[0]), Err(AddressError::InvalidPayload));
    assert_eq!(Address::from_bytes(&[0, 0x80, 0x00]), Err(AddressError::InvalidPayload));
    assert_eq!(Address::from_bytes(&[0, 0x80]), Err(AddressError::InvalidPayload));
    // hashes and keys of the wrong length
    assert_eq!(Address::from_bytes(&[1; 20]), Err(AddressError::InvalidPayload));
    assert_eq!(Address::from_bytes(&[1; 22]), Err(AddressError::InvalidPayload));
    assert_eq!(Address::from_bytes(&[2; 5]), Err(AddressError::InvalidPayload));
    assert_eq!(Address::from_bytes(&[3; 48]), Err(AddressError::InvalidPayload));
    assert_eq!(Address::from_bytes(&[3; 50]), Err(AddressError::InvalidPayload));
}

#[test]
fn byte_helpers() {
    let mut out = vec![1u8];
    push_all(&mut out, &[2, 3]);
    push_all(&mut out, &[]);
    assert_eq!(out, vec![1, 2, 3]);
}

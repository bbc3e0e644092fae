use metered_vm::address::Address;
use metered_vm::blockstore::{BlockStore, MemoryStore, StoreError};
use metered_vm::cid::Cid;
use metered_vm::init::address_map::{append_entry, find_in_block};
use metered_vm::init::state::InitState;
use metered_vm::error::ExitCode;
use metered_vm::init::{init_actor_address, ActorState, State, StateError, Version, INIT_ACTOR_ID};

const VERSIONS: [Version; 6] =
    [Version::V0, Version::V2, Version::V3, Version::V4, Version::V5, Version::V6];

/// A store with an empty address map in it, and a state of `version` on it.
fn fresh(version: Version, name: &str) -> (MemoryStore, State) {
    let mut store = MemoryStore::new();
    let map = store.put(&[]).unwrap();
    (store, State::of_version(version, InitState::new(map, 100, String::from(name))))
}

fn record(code: Cid, state: Cid) -> ActorState {
    ActorState { code, state, sequence: 0, balance: 0 }
}

fn secp(n: u8) -> Address {
    Address::new_secp256k1([n; 20])
}

fn broken() -> StoreError {
    StoreError { msg: String::from("disk on fire") }
}

#[test]
fn code_identifiers_name_their_version() {
    assert_eq!(Version::V0.code_id(), Cid::new(b"\x01\x55\x00\x0afil/1/init".to_vec()));
    assert_eq!(Version::V2.code_id(), Cid::new(b"\x01\x55\x00\x0afil/2/init".to_vec()));
    assert_eq!(Version::V3.code_id(), Cid::new(b"\x01\x55\x00\x0afil/3/init".to_vec()));
    assert_eq!(Version::V4.code_id(), Cid::new(b"\x01\x55\x00\x0afil/4/init".to_vec()));
    assert_eq!(Version::V5.code_id(), Cid::new(b"\x01\x55\x00\x0afil/5/init".to_vec()));
    assert_eq!(Version::V6.code_id(), Cid::new(b"\x01\x55\x00\x0afil/6/init".to_vec()));
    for v in VERSIONS {
        assert_eq!(Version::of_code(&v.code_id()), Some(v));
    }
}

#[test]
fn unknown_code_identifiers_name_no_version() {
    assert_eq!(Version::of_code(&Cid::default()), None);
    assert_eq!(Version::of_code(&Cid::new(b"\x01\x55\x00\x0afil/7/init".to_vec())), None);
    assert_eq!(Version::of_code(&Cid::new(b"\x01\x55\x00\x0afil/1/initx".to_vec())), None);
    assert_eq!(Version::of_code(&Cid::new(b"\x01\x55\x00\x0bfil/1/power".to_vec())), None);
    assert_eq!(Version::of_code(&Cid::new(b"\x01\x55\x00\x0afil/1/ini".to_vec())), None);
}

#[test]
fn state_block_layout() {
    let st = InitState::new(Cid::new(vec![0xaa, 0xbb]), 258, String::from("né"));
    assert_eq!(
        st.encode(),
        vec![
            2, 0, 0, 0, 0, 0, 0, 0, 0xaa, 0xbb, // the map's identifier
            2, 1, 0, 0, 0, 0, 0, 0, // the next ID
            3, 0, 0, 0, 0, 0, 0, 0, b'n', 0xc3, 0xa9, // the name
        ]
    );
    assert_eq!(InitState::decode(&st.encode()), Some(st));
}

#[test]
fn blocks_that_are_no_state_are_refused() {
    let good = InitState::new(Cid::new(vec![1]), 7, String::from("net")).encode();
    assert!(InitState::decode(&good).is_some());
    assert_eq!(InitState::decode(&[]), None);
    for cut in 0..good.len() {
        assert_eq!(InitState::decode(&good[..cut]), None);
    }
    let mut longer = good.clone();
    longer.push(0);
    assert_eq!(InitState::decode(&longer), None);
    // a name that is not UTF-8
    let mut bad_name = good.clone();
    let last = bad_name.len() - 1;
    bad_name[last] = 0xff;
    assert_eq!(InitState::decode(&bad_name), None);
}

#[test]
fn load_reads_the_version_from_the_code() {
    for v in VERSIONS {
        let (mut store, state) = fresh(v, "mainnet");
        let root = state.save(&mut store).unwrap();
        let loaded = State::load(&store, &record(v.code_id(), root)).unwrap();
        assert_eq!(loaded.version(), v);
        assert_eq!(loaded, state);
    }
    let (mut store, state) = fresh(Version::V2, "mainnet");
    let root = state.save(&mut store).unwrap();
    // the same block under another version's code is that version's state
    let loaded = State::load(&store, &record(Version::V5.code_id(), root)).unwrap();
    assert!(matches!(loaded, State::V5(_)));
    assert_eq!(loaded.state(), state.state());
}

#[test]
fn load_refuses_an_unknown_code_whatever_the_store_holds() {
    let (mut store, state) = fresh(Version::V6, "mainnet");
    let root = state.save(&mut store).unwrap();
    let unknown = Cid::new(b"\x01\x55\x00\x0afil/9/init".to_vec());
    assert_eq!(
        State::load(&store, &record(unknown.clone(), root)),
        Err(StateError::UnsupportedStateVersion)
    );
    assert_eq!(
        State::load(&store, &record(unknown, Cid::default())),
        Err(StateError::UnsupportedStateVersion)
    );
    assert_eq!(
        State::load(&MemoryStore::new(), &record(Cid::default(), Cid::default())),
        Err(StateError::UnsupportedStateVersion)
    );
}

#[test]
fn load_reports_a_missing_or_malformed_block_as_inconsistency() {
    let mut store = MemoryStore::new();
    let code = Version::V4.code_id();
    assert_eq!(
        State::load(&store, &record(code.clone(), Cid::new(vec![1, 2, 3]))),
        Err(StateError::StoreInconsistency)
    );
    let junk = store.put(&[1, 2, 3]).unwrap();
    assert_eq!(State::load(&store, &record(code, junk)), Err(StateError::StoreInconsistency));
}

#[test]
fn from_block_tells_the_three_answers_of_a_store_apart() {
    let st = InitState::new(Cid::new(vec![1]), 7, String::from("net"));
    assert_eq!(
        State::from_block(Version::V3, Ok(Some(st.encode()))),
        Ok(State::V3(InitState::new(Cid::new(vec![1]), 7, String::from("net"))))
    );
    assert_eq!(State::from_block(Version::V3, Ok(None)), Err(StateError::StoreInconsistency));
    assert_eq!(
        State::from_block(Version::V3, Ok(Some(vec![0]))),
        Err(StateError::StoreInconsistency)
    );
    assert_eq!(State::from_block(Version::V3, Err(broken())), Err(StateError::Store(broken())));
}

#[test]
fn round_trip_keeps_map_and_name_in_every_version() {
    for v in VERSIONS {
        let (mut store, mut state) = fresh(v, "calibnet");
        let a = state.map_address_to_new_id(&mut store, &secp(1)).unwrap();
        let b = state.map_address_to_new_id(&mut store, &Address::new_bls([2; 48])).unwrap();
        let root = state.save(&mut store).unwrap();
        let loaded = State::load(&store, &record(v.code_id(), root)).unwrap();
        assert_eq!(loaded, state);
        assert_eq!(loaded.state().next_id, 102);
        assert_eq!(loaded.resolve_address(&store, &secp(1)), Ok(Some(a)));
        assert_eq!(loaded.resolve_address(&store, &Address::new_bls([2; 48])), Ok(Some(b)));
        assert_eq!(loaded.resolve_address(&store, &secp(3)), Ok(None));
        assert_eq!(loaded.into_network_name(), "calibnet");
    }
}

#[test]
fn distinct_addresses_get_distinct_increasing_ids() {
    for v in VERSIONS {
        let (mut store, mut state) = fresh(v, "net");
        let first = state.map_address_to_new_id(&mut store, &secp(1)).unwrap();
        let second = state.map_address_to_new_id(&mut store, &Address::new_actor([1; 20])).unwrap();
        assert_eq!(first, Address::new_id(100));
        assert_eq!(second, Address::new_id(101));
        assert!(first.id().unwrap() < second.id().unwrap());
        assert_eq!(state.state().next_id, 102);
        assert_eq!(state.version(), v);
        assert_eq!(state.resolve_address(&store, &secp(1)), Ok(Some(first)));
        assert_eq!(state.resolve_address(&store, &Address::new_actor([1; 20])), Ok(Some(second)));
    }
}

#[test]
fn mapping_an_address_again_gives_it_a_new_id() {
    let (mut store, mut state) = fresh(Version::V6, "net");
    let first = state.map_address_to_new_id(&mut store, &secp(1)).unwrap();
    let other = state.map_address_to_new_id(&mut store, &secp(2)).unwrap();
    let again = state.map_address_to_new_id(&mut store, &secp(1)).unwrap();
    assert_eq!(first, Address::new_id(100));
    assert_eq!(other, Address::new_id(101));
    assert_eq!(again, Address::new_id(102));
    assert_eq!(state.resolve_address(&store, &secp(1)), Ok(Some(again)));
    assert_eq!(state.resolve_address(&store, &secp(2)), Ok(Some(other)));
}

#[test]
fn mapping_stores_a_new_block_and_leaves_the_old_one() {
    let (mut store, mut state) = fresh(Version::V3, "net");
    let before = state.state().address_map.clone();
    state.map_address_to_new_id(&mut store, &secp(9)).unwrap();
    let after = state.state().address_map.clone();
    assert_ne!(before, after);
    assert_eq!(store.get(&before), Ok(Some(vec![])));
    let mut entry = vec![21u8, 0, 0, 0, 0, 0, 0, 0, 1];
    entry.extend_from_slice(&[9; 20]);
    entry.extend_from_slice(&[100, 0, 0, 0, 0, 0, 0, 0]);
    assert_eq!(store.get(&after), Ok(Some(entry)));
    // a state that still names the old block sees the old map
    let old = State::V3(InitState::new(before, 100, String::from("net")));
    assert_eq!(old.resolve_address(&store, &secp(9)), Ok(None));
}

#[test]
fn id_address_is_not_mapped() {
    for v in VERSIONS {
        let (mut store, mut state) = fresh(v, "net");
        let blocks = store.len();
        assert_eq!(
            state.map_address_to_new_id(&mut store, &Address::new_id(5)),
            Err(StateError::IdAddress)
        );
        assert_eq!(state.state().next_id, 100);
        assert_eq!(store.len(), blocks);
    }
    // refused even where the map is missing
    let mut store = MemoryStore::new();
    let mut state = State::V0(InitState::new(Cid::default(), 0, String::new()));
    assert_eq!(
        state.map_address_to_new_id(&mut store, &Address::new_id(0)),
        Err(StateError::IdAddress)
    );
}

#[test]
fn last_id_is_never_given() {
    let mut store = MemoryStore::new();
    let map = store.put(&[]).unwrap();
    let mut state = State::V6(InitState::new(map.clone(), u64::MAX - 1, String::from("net")));
    assert_eq!(
        state.map_address_to_new_id(&mut store, &secp(1)),
        Ok(Address::new_id(u64::MAX - 1))
    );
    assert_eq!(state.state().next_id, u64::MAX);
    let root = state.state().address_map.clone();
    assert_eq!(state.map_address_to_new_id(&mut store, &secp(2)), Err(StateError::IdsExhausted));
    assert_eq!(state.state().next_id, u64::MAX);
    assert_eq!(state.state().address_map, root);
}

#[test]
fn mapping_on_a_missing_or_malformed_map_is_inconsistency() {
    let mut store = MemoryStore::new();
    let mut state = State::V5(InitState::new(Cid::new(vec![1]), 3, String::from("net")));
    assert_eq!(
        state.map_address_to_new_id(&mut store, &secp(1)),
        Err(StateError::StoreInconsistency)
    );
    assert_eq!(state.state().next_id, 3);
    assert_eq!(store.len(), 0);
    let junk = store.put(&[1, 2, 3]).unwrap();
    let mut state = State::V5(InitState::new(junk.clone(), 3, String::from("net")));
    assert_eq!(
        state.map_address_to_new_id(&mut store, &secp(1)),
        Err(StateError::StoreInconsistency)
    );
    assert_eq!(state.state().address_map, junk);
    assert_eq!(state.resolve_address(&store, &secp(1)), Err(StateError::StoreInconsistency));
}

#[test]
fn id_address_resolves_to_itself_in_every_version() {
    for v in VERSIONS {
        let (store, state) = fresh(v, "net");
        for id in [0u64, 1, 99, u64::MAX] {
            assert_eq!(
                state.resolve_address(&store, &Address::new_id(id)),
                Ok(Some(Address::new_id(id)))
            );
        }
        // even where the map is missing from the store
        let lost = State::of_version(v, InitState::new(Cid::new(vec![9]), 0, String::new()));
        assert_eq!(
            lost.resolve_address(&MemoryStore::new(), &Address::new_id(4)),
            Ok(Some(Address::new_id(4)))
        );
    }
}

#[test]
fn unmapped_address_is_not_found() {
    for v in VERSIONS {
        let (mut store, mut state) = fresh(v, "net");
        assert_eq!(state.resolve_address(&store, &secp(1)), Ok(None));
        state.map_address_to_new_id(&mut store, &secp(2)).unwrap();
        assert_eq!(state.resolve_address(&store, &secp(1)), Ok(None));
        // the same hash under another protocol is another address
        assert_eq!(state.resolve_address(&store, &Address::new_actor([2; 20])), Ok(None));
    }
}

#[test]
fn resolve_in_and_extend_tell_the_three_answers_of_a_store_apart() {
    let block = append_entry(&[], &secp(1).to_bytes(), 44);
    assert_eq!(
        State::resolve_in(Ok(Some(block.clone())), &secp(1)),
        Ok(Some(Address::new_id(44)))
    );
    assert_eq!(State::resolve_in(Ok(Some(block.clone())), &secp(2)), Ok(None));
    assert_eq!(State::resolve_in(Ok(None), &secp(1)), Err(StateError::StoreInconsistency));
    assert_eq!(
        State::resolve_in(Ok(Some(vec![1])), &secp(1)),
        Err(StateError::StoreInconsistency)
    );
    assert_eq!(State::resolve_in(Err(broken()), &secp(1)), Err(StateError::Store(broken())));

    let grown = State::extend(Ok(Some(block.clone())), &secp(2), 45).unwrap();
    assert_eq!(grown, append_entry(&block, &secp(2).to_bytes(), 45));
    assert_eq!(State::extend(Ok(None), &secp(2), 45), Err(StateError::StoreInconsistency));
    assert_eq!(
        State::extend(Ok(Some(vec![0xff; 8])), &secp(2), 45),
        Err(StateError::StoreInconsistency)
    );
    assert_eq!(State::extend(Err(broken()), &secp(2), 45), Err(StateError::Store(broken())));
}

#[test]
fn newest_entry_of_a_block_counts() {
    let key = [1u8, 2, 3];
    let mut block = append_entry(&[], &key, 7);
    assert_eq!(
        block,
        vec![3, 0, 0, 0, 0, 0, 0, 0, 1, 2, 3, 7, 0, 0, 0, 0, 0, 0, 0]
    );
    block = append_entry(&block, &[9], 8);
    block = append_entry(&block, &key, 9);
    assert_eq!(find_in_block(&block, &key), Some(Some(9)));
    assert_eq!(find_in_block(&block, &[9]), Some(Some(8)));
    assert_eq!(find_in_block(&block, &[1, 2]), Some(None));
    assert_eq!(find_in_block(&[], &key), Some(None));
    // cut short anywhere, the block is no map
    for cut in 1..19 {
        assert_eq!(find_in_block(&block[..cut], &key), None);
    }
    assert_eq!(find_in_block(&block[..19], &key), Some(Some(7)));
}

#[test]
fn network_name_is_handed_out() {
    for v in VERSIONS {
        let (_, state) = fresh(v, "interopnet");
        assert_eq!(state.into_network_name(), "interopnet");
    }
    let state = State::V0(InitState::new(Cid::default(), 0, String::new()));
    assert_eq!(state.into_network_name(), "");
}

#[test]
fn failures_abort_under_their_category() {
    assert_eq!(StateError::UnsupportedStateVersion.exit_code(), ExitCode::UnsupportedStateVersion);
    assert_eq!(StateError::StoreInconsistency.exit_code(), ExitCode::StoreInconsistency);
    assert_eq!(StateError::Store(broken()).exit_code(), ExitCode::StoreInconsistency);
    assert_eq!(StateError::IdAddress.exit_code(), ExitCode::ActorFailure);
    assert_eq!(StateError::IdsExhausted.exit_code(), ExitCode::ActorFailure);
}

#[test]
fn init_actor_is_a_singleton_that_resolves_to_itself() {
    assert_eq!(INIT_ACTOR_ID, 1);
    assert_eq!(init_actor_address(), Address::new_id(1));
    let (store, state) = fresh(Version::V6, "net");
    assert_eq!(state.resolve_address(&store, &init_actor_address()), Ok(Some(Address::new_id(1))));
}

//! The state of the init actor, in every version of it that the chain has
//! known.
//!
//! An actor's record names its code and the block that holds its state. The
//! code tells the version; the block is read as that version's state. The
//! operations on a loaded state are the same for every version: give an
//! address a new ID, resolve an address to its ID, hand out the network's
//! name.

pub mod address_map;
pub mod state;

use vstd::prelude::*;
use crate::address::{ActorID, Address, Payload, Protocol};
use crate::blockstore::{BlockStore, StoreError};
use crate::cid::Cid;
use crate::error::ExitCode;
use crate::init::address_map::{
    append_entry,
    entries_bytes,
    find_in_block,
    lemma_lookup_after_push,
    lemma_parse_entries_after_append,
    lemma_parse_entries_is_exact,
    lookup,
    parse_entries,
    Entry,
};
use crate::init::state::{
    lemma_parse_state_of_bytes,
    parse_state,
    state_bytes,
    InitState,
    StateFields,
};

verus! {

/// A version of the init actor.
#[derive(Clone, Copy, Debug, PartialEq, Eq, Structural)]
pub enum Version {
    V0,
    V2,
    V3,
    V4,
    V5,
    V6,
}

/// What the chain records of an actor.
#[derive(Clone, Debug, PartialEq, Eq)]
pub struct ActorState {
    /// The identifier of the actor's code.
    pub code: Cid,
    /// The identifier of the block that holds the actor's state.
    pub state: Cid,
    /// The number of messages that the actor has sent.
    pub sequence: u64,
    /// The actor's balance.
    pub balance: u128,
}

/// Why an operation on the state of the init actor failed.
#[derive(Clone, Debug, PartialEq, Eq)]
pub enum StateError {
    /// The code identifier is that of no version of the init actor.
    UnsupportedStateVersion,
    /// A block is missing from the store, or is not what it should be.
    StoreInconsistency,
    /// The address to map is an ID address already.
    IdAddress,
    /// There is no ID left to give.
    IdsExhausted,
    /// The store itself failed.
    Store(StoreError),
}

impl StateError {
    /// The category under which this failure aborts a message: an unknown
    /// code as an unsupported state version; a missing or malformed block,
    /// and a failure of the store, as a store inconsistency; an address that
    /// cannot be given an ID as a failure of the actor.
    pub open spec fn spec_exit_code(&self) -> ExitCode {
        match self {
            StateError::UnsupportedStateVersion => ExitCode::UnsupportedStateVersion,
            StateError::StoreInconsistency => ExitCode::StoreInconsistency,
            StateError::Store(_) => ExitCode::StoreInconsistency,
            StateError::IdAddress => ExitCode::ActorFailure,
            StateError::IdsExhausted => ExitCode::ActorFailure,
        }
    }

    /// The category under which this failure aborts a message.
    pub fn exit_code(&self) -> (code: ExitCode)
        ensures
            code == self.spec_exit_code(),
    {
        match self {
            StateError::UnsupportedStateVersion => ExitCode::UnsupportedStateVersion,
            StateError::StoreInconsistency => ExitCode::StoreInconsistency,
            StateError::Store(_) => ExitCode::StoreInconsistency,
            StateError::IdAddress => ExitCode::ActorFailure,
            StateError::IdsExhausted => ExitCode::ActorFailure,
        }
    }
}

/// The ID of the init actor itself.
pub const INIT_ACTOR_ID: ActorID = 1;

/// The address of the init actor.
pub fn init_actor_address() -> (a: Address)
    ensures
        a.payload == Payload::ID(INIT_ACTOR_ID),
{
    Address::new_id(INIT_ACTOR_ID)
}

/// The digit that tells the versions' code identifiers apart.
pub open spec fn code_digit(version: Version) -> u8 {
    match version {
        Version::V0 => 0x31,
        Version::V2 => 0x32,
        Version::V3 => 0x33,
        Version::V4 => 0x34,
        Version::V5 => 0x35,
        Version::V6 => 0x36,
    }
}

/// The code identifier of the init actor of `version`: version 1, raw
/// content, and in place of a digest the ten characters `fil/N/init`, where
/// `N` is the version's digit.
pub open spec fn init_code(version: Version) -> Seq<u8> {
    seq![
        0x01u8,
        0x55u8,
        0x00u8,
        0x0au8,
        0x66u8,
        0x69u8,
        0x6cu8,
        0x2fu8,
        code_digit(version),
        0x2fu8,
        0x69u8,
        0x6eu8,
        0x69u8,
        0x74u8,
    ]
}

/// The version whose init actor has the code identifier `code`, if it is
/// that of any. The newest version is tried first.
pub open spec fn version_of_code(code: Seq<u8>) -> Option<Version> {
    if code == init_code(Version::V6) {
        Some(Version::V6)
    } else if code == init_code(Version::V5) {
        Some(Version::V5)
    } else if code == init_code(Version::V4) {
        Some(Version::V4)
    } else if code == init_code(Version::V3) {
        Some(Version::V3)
    } else if code == init_code(Version::V2) {
        Some(Version::V2)
    } else if code == init_code(Version::V0) {
        Some(Version::V0)
    } else {
        None
    }
}

/// The state that the block under `root` holds, if `blocks` has such a
/// block and it is a state.
pub open spec fn stored_state(blocks: Map<Seq<u8>, Seq<u8>>, root: Seq<u8>) -> Option<
    StateFields,
> {
    if blocks.contains_key(root) {
        parse_state(blocks[root])
    } else {
        None
    }
}

/// The address map that the block under `root` holds, if `blocks` has such
/// a block and it is an address map.
pub open spec fn stored_map(blocks: Map<Seq<u8>, Seq<u8>>, root: Seq<u8>) -> Option<Seq<Entry>> {
    if blocks.contains_key(root) {
        parse_entries(blocks[root])
    } else {
        None
    }
}

/// The ID address that `entries` resolves the address with byte form `key`
/// to, if it resolves it.
pub open spec fn resolved(entries: Seq<Entry>, key: Seq<u8>) -> Option<Address> {
    match lookup(entries, key) {
        Some(id) => Some(Address { payload: Payload::ID(id) }),
        None => None,
    }
}

impl Version {
    /// The code identifier of the init actor of this version.
    pub fn code_id(self) -> (code: Cid)
        ensures
            code@ == init_code(self),
    {
        let digit: u8 = match self {
            Version::V0 => 0x31,
            Version::V2 => 0x32,
            Version::V3 => 0x33,
            Version::V4 => 0x34,
            Version::V5 => 0x35,
            Version::V6 => 0x36,
        };
        let mut bytes: Vec<u8> = Vec::new();
        bytes.push(0x01);
        bytes.push(0x55);
        bytes.push(0x00);
        bytes.push(0x0a);
        bytes.push(0x66);
        bytes.push(0x69);
        bytes.push(0x6c);
        bytes.push(0x2f);
        bytes.push(digit);
        bytes.push(0x2f);
        bytes.push(0x69);
        bytes.push(0x6e);
        bytes.push(0x69);
        bytes.push(0x74);
        assert(bytes@ =~= init_code(self));
        Cid { bytes }
    }

    /// The version whose init actor has the code identifier `code`; `None`
    /// for every identifier that is that of none.
    pub fn of_code(code: &Cid) -> (r: Option<Version>)
        ensures
            r == version_of_code(code@),
    {
        if code.same(&Version::V6.code_id()) {
            Some(Version::V6)
        } else if code.same(&Version::V5.code_id()) {
            Some(Version::V5)
        } else if code.same(&Version::V4.code_id()) {
            Some(Version::V4)
        } else if code.same(&Version::V3.code_id()) {
            Some(Version::V3)
        } else if code.same(&Version::V2.code_id()) {
            Some(Version::V2)
        } else if code.same(&Version::V0.code_id()) {
            Some(Version::V0)
        } else {
            None
        }
    }
}

/// The state of the init actor, in the version that the actor's code tells.
#[derive(Clone, Debug, PartialEq, Eq)]
pub enum State {
    V0(InitState),
    V2(InitState),
    V3(InitState),
    V4(InitState),
    V5(InitState),
    V6(InitState),
}

impl State {
    /// The version of this state.
    pub open spec fn spec_version(&self) -> Version {
        match self {
            State::V0(_) => Version::V0,
            State::V2(_) => Version::V2,
            State::V3(_) => Version::V3,
            State::V4(_) => Version::V4,
            State::V5(_) => Version::V5,
            State::V6(_) => Version::V6,
        }
    }

    /// What this state holds.
    pub open spec fn fields(&self) -> StateFields {
        match self {
            State::V0(st) => st@,
            State::V2(st) => st@,
            State::V3(st) => st@,
            State::V4(st) => st@,
            State::V5(st) => st@,
            State::V6(st) => st@,
        }
    }

    /// The state of `version` that holds `st`.
    pub fn of_version(version: Version, st: InitState) -> (s: State)
        ensures
            s.spec_version() == version,
            s.fields() == st@,
    {
        match version {
            Version::V0 => State::V0(st),
            Version::V2 => State::V2(st),
            Version::V3 => State::V3(st),
            Version::V4 => State::V4(st),
            Version::V5 => State::V5(st),
            Version::V6 => State::V6(st),
        }
    }

    /// The version of this state.
    pub fn version(&self) -> (v: Version)
        ensures
            v == self.spec_version(),
    {
        match self {
            State::V0(_) => Version::V0,
            State::V2(_) => Version::V2,
            State::V3(_) => Version::V3,
            State::V4(_) => Version::V4,
            State::V5(_) => Version::V5,
            State::V6(_) => Version::V6,
        }
    }

    /// What this state holds.
    pub fn state(&self) -> (st: &InitState)
        ensures
            st@ == self.fields(),
    {
        match self {
            State::V0(st) => st,
            State::V2(st) => st,
            State::V3(st) => st,
            State::V4(st) => st,
            State::V5(st) => st,
            State::V6(st) => st,
        }
    }

    /// Makes the state of `version` from what the store answered when it was
    /// asked for the state's block: the state that the block holds; a store
    /// inconsistency where the store has no such block or the block is no
    /// state; the store's failure where it failed.
    pub fn from_block(version: Version, block: Result<Option<Vec<u8>>, StoreError>) -> (r: Result<
        State,
        StateError,
    >)
        ensures
            match block {
                Ok(Some(bytes)) => match parse_state(bytes@) {
                    Some(f) => r matches Ok(s) && s.spec_version() == version && s.fields() == f,
                    None => r == Err::<State, StateError>(StateError::StoreInconsistency),
                },
                Ok(None) => r == Err::<State, StateError>(StateError::StoreInconsistency),
                Err(e) => r == Err::<State, StateError>(StateError::Store(e)),
            },
    {
        match block {
            Ok(Some(bytes)) => match InitState::decode(bytes.as_slice()) {
                Some(st) => Ok(State::of_version(version, st)),
                None => Err(StateError::StoreInconsistency),
            },
            Ok(None) => Err(StateError::StoreInconsistency),
            Err(e) => Err(StateError::Store(e)),
        }
    }

    /// Loads the state of the init actor that `actor` records.
    ///
    /// A code identifier that is that of no version is refused, whatever the
    /// store holds. For the code of a version, the block that the record
    /// names is read as that version's state; where the store has no such
    /// block, or the block is no state, the store is inconsistent. Only a
    /// store that is not reliable can fail of itself.
    pub fn load<BS: BlockStore>(store: &BS, actor: &ActorState) -> (r: Result<State, StateError>)
        ensures
            match version_of_code(actor.code@) {
                None => r == Err::<State, StateError>(StateError::UnsupportedStateVersion),
                Some(version) => match r {
                    Ok(s) => s.spec_version() == version && stored_state(
                        store.blocks(),
                        actor.state@,
                    ) == Some(s.fields()),
                    Err(StateError::StoreInconsistency) => stored_state(
                        store.blocks(),
                        actor.state@,
                    ) is None,
                    Err(StateError::Store(_)) => !store.reliable(),
                    Err(_) => false,
                },
            },
    {
        match Version::of_code(&actor.code) {
            None => Err(StateError::UnsupportedStateVersion),
            Some(version) => State::from_block(version, store.get(&actor.state)),
        }
    }

    /// Stores this state and returns the identifier of its block, for the
    /// actor's record. Loading from that identifier gives this state back.
    pub fn save<BS: BlockStore>(&self, store: &mut BS) -> (r: Result<Cid, StateError>)
        ensures
            final(store).reliable() == old(store).reliable(),
            match r {
                Ok(root) => final(store).blocks() == old(store).blocks().insert(
                    root@,
                    state_bytes(self.fields()),
                ) && old(store).blocks().submap_of(final(store).blocks()) && stored_state(
                    final(store).blocks(),
                    root@,
                ) == Some(self.fields()),
                Err(StateError::Store(_)) => {
                    &&& !old(store).reliable()
                    &&& final(store).blocks() == old(store).blocks()
                },
                Err(_) => false,
            },
    {
        let block = self.state().encode();
        match store.put(block.as_slice()) {
            Ok(root) => Ok(root),
            Err(e) => Err(StateError::Store(e)),
        }
    }

    /// Looks up, in what the store answered when it was asked for the block
    /// of the address map, the ID address that `addr` is mapped to.
    pub fn resolve_in(block: Result<Option<Vec<u8>>, StoreError>, addr: &Address) -> (r: Result<
        Option<Address>,
        StateError,
    >)
        ensures
            match block {
                Ok(Some(bytes)) => match parse_entries(bytes@) {
                    Some(entries) => r == Ok::<Option<Address>, StateError>(
                        resolved(entries, addr.bytes()),
                    ),
                    None => r == Err::<Option<Address>, StateError>(StateError::StoreInconsistency),
                },
                Ok(None) => r == Err::<Option<Address>, StateError>(StateError::StoreInconsistency),
                Err(e) => r == Err::<Option<Address>, StateError>(StateError::Store(e)),
            },
    {
        match block {
            Ok(Some(bytes)) => {
                let key = addr.to_bytes();
                match find_in_block(bytes.as_slice(), key.as_slice()) {
                    Some(Some(id)) => Ok(Some(Address::new_id(id))),
                    Some(None) => Ok(None),
                    None => Err(StateError::StoreInconsistency),
                }
            },
            Ok(None) => Err(StateError::StoreInconsistency),
            Err(e) => Err(StateError::Store(e)),
        }
    }

    /// Resolves an address to an ID address, if possible.
    ///
    /// An ID address is returned as it is, whatever the store holds: this is
    /// how the addresses of the singleton actors, which are in no map, pass
    /// through. Every other address is looked up in the address map:
    /// `Ok(Some(..))` with the ID address that it is mapped to, and
    /// `Ok(None)` where it is not mapped. Where the store has no block for
    /// the map, or the block is no map, the store is inconsistent. Only a
    /// store that is not reliable can fail of itself.
    pub fn resolve_address<BS: BlockStore>(&self, store: &BS, addr: &Address) -> (r: Result<
        Option<Address>,
        StateError,
    >)
        ensures
            addr.spec_protocol() == Protocol::ID ==> r == Ok::<Option<Address>, StateError>(
                Some(*addr),
            ),
            addr.spec_protocol() != Protocol::ID ==> match r {
                Ok(found) => stored_map(store.blocks(), self.fields().address_map) matches Some(
                    entries,
                ) && found == resolved(entries, addr.bytes()),
                Err(StateError::StoreInconsistency) => stored_map(
                    store.blocks(),
                    self.fields().address_map,
                ) is None,
                Err(StateError::Store(_)) => !store.reliable(),
                Err(_) => false,
            },
    {
        match addr.protocol() {
            Protocol::ID => Ok(Some(*addr)),
            _ => State::resolve_in(store.get(&self.state().address_map), addr),
        }
    }

    /// Makes, from what the store answered when it was asked for the block
    /// of the address map, the block of the map with one more entry: `addr`
    /// with the ID `id`.
    pub fn extend(block: Result<Option<Vec<u8>>, StoreError>, addr: &Address, id: u64) -> (r:
        Result<Vec<u8>, StateError>)
        ensures
            match block {
                Ok(Some(bytes)) => match parse_entries(bytes@) {
                    Some(entries) => r matches Ok(out) && out@ == entries_bytes(
                        entries.push((addr.bytes(), id)),
                    ) && parse_entries(out@) == Some(entries.push((addr.bytes(), id))),
                    None => r == Err::<Vec<u8>, StateError>(StateError::StoreInconsistency),
                },
                Ok(None) => r == Err::<Vec<u8>, StateError>(StateError::StoreInconsistency),
                Err(e) => r == Err::<Vec<u8>, StateError>(StateError::Store(e)),
            },
    {
        match block {
            Ok(Some(bytes)) => {
                let key = addr.to_bytes();
                match find_in_block(bytes.as_slice(), key.as_slice()) {
                    Some(_) => {
                        let out = append_entry(bytes.as_slice(), key.as_slice(), id);
                        proof {
                            let entries = parse_entries(bytes@)->0;
                            crate::encoding::lemma_address_bytes_len(*addr);
                            lemma_parse_entries_is_exact(bytes@);
                            lemma_parse_entries_after_append(bytes@, key@, id);
                            assert(entries.push((key@, id)).drop_last() =~= entries);
                            lemma_parse_entries_is_exact(out@);
                        }
                        Ok(out)
                    },
                    None => Err(StateError::StoreInconsistency),
                }
            },
            Ok(None) => Err(StateError::StoreInconsistency),
            Err(e) => Err(StateError::Store(e)),
        }
    }

    /// Allocates a new ID address and stores a mapping of `addr` to it.
    /// Returns the newly allocated address.
    ///
    /// The ID given is the state's next ID, and the next ID then grows by
    /// one. The map gains an entry and is stored as a new block, which the
    /// state names from then on; the caller stores the state anew. An address
    /// that was mapped before is given a new ID, which replaces the old one
    /// in every later resolution.
    ///
    /// An ID address is refused, and so is every address once the last ID has
    /// been given. Where the store has no block for the map, or the block is
    /// no map, the store is inconsistent. Only a store that is not reliable
    /// can fail of itself. Every failure leaves the state as it was, and the
    /// store with the blocks that it had.
    pub fn map_address_to_new_id<BS: BlockStore>(&mut self, store: &mut BS, addr: &Address) -> (r:
        Result<Address, StateError>)
        ensures
            final(store).reliable() == old(store).reliable(),
            final(self).spec_version() == old(self).spec_version(),
            final(self).fields().network_name == old(self).fields().network_name,
            r is Err ==> final(self).fields() == old(self).fields(),
            r is Err ==> final(store).blocks() == old(store).blocks(),
            addr.spec_protocol() == Protocol::ID ==> r == Err::<Address, StateError>(
                StateError::IdAddress,
            ),
            addr.spec_protocol() != Protocol::ID && old(self).fields().next_id == u64::MAX ==> r
                == Err::<Address, StateError>(StateError::IdsExhausted),
            addr.spec_protocol() != Protocol::ID && old(self).fields().next_id < u64::MAX
                ==> match r {
                Ok(id_addr) => {
                    let id = old(self).fields().next_id;
                    let root = final(self).fields().address_map;
                    &&& id_addr.payload == Payload::ID(id)
                    &&& final(self).fields().next_id == id + 1
                    &&& stored_map(
                        old(store).blocks(),
                        old(self).fields().address_map,
                    ) matches Some(entries) && {
                        let grown = entries.push((addr.bytes(), id));
                        &&& final(store).blocks() == old(store).blocks().insert(
                            root,
                            entries_bytes(grown),
                        )
                        &&& old(store).blocks().submap_of(final(store).blocks())
                        &&& stored_map(final(store).blocks(), root) == Some(grown)
                    }
                },
                Err(StateError::StoreInconsistency) => stored_map(
                    old(store).blocks(),
                    old(self).fields().address_map,
                ) is None,
                Err(StateError::Store(_)) => !old(store).reliable(),
                Err(_) => false,
            },
    {
        if let Protocol::ID = addr.protocol() {
            return Err(StateError::IdAddress);
        }
        let id: u64 = self.state().next_id;
        if id == u64::MAX {
            return Err(StateError::IdsExhausted);
        }
        let grown = match State::extend(store.get(&self.state().address_map), addr, id) {
            Ok(block) => block,
            Err(e) => {
                return Err(e);
            },
        };
        let root = match store.put(grown.as_slice()) {
            Ok(root) => root,
            Err(e) => {
                return Err(StateError::Store(e));
            },
        };
        match self {
            State::V0(st) => {
                st.address_map = root;
                st.next_id = id + 1;
            },
            State::V2(st) => {
                st.address_map = root;
                st.next_id = id + 1;
            },
            State::V3(st) => {
                st.address_map = root;
                st.next_id = id + 1;
            },
            State::V4(st) => {
                st.address_map = root;
                st.next_id = id + 1;
            },
            State::V5(st) => {
                st.address_map = root;
                st.next_id = id + 1;
            },
            State::V6(st) => {
                st.address_map = root;
                st.next_id = id + 1;
            },
        }
        Ok(Address::new_id(id))
    }

    /// Gives up the state for the name of the network.
    pub fn into_network_name(self) -> (name: String)
        ensures
            name@ == self.fields().network_name,
    {
        match self {
            State::V0(st) => st.network_name,
            State::V2(st) => st.network_name,
            State::V3(st) => st.network_name,
            State::V4(st) => st.network_name,
            State::V5(st) => st.network_name,
            State::V6(st) => st.network_name,
        }
    }
}

/// Each version's code identifier is told apart from every other's: the
/// version of a version's code is that version.
pub proof fn lemma_version_of_code_round_trip(version: Version)
    ensures
        version_of_code(init_code(version)) == Some(version),
{
    assert(init_code(Version::V0)[8] == 0x31);
    assert(init_code(Version::V2)[8] == 0x32);
    assert(init_code(Version::V3)[8] == 0x33);
    assert(init_code(Version::V4)[8] == 0x34);
    assert(init_code(Version::V5)[8] == 0x35);
    assert(init_code(Version::V6)[8] == 0x36);
}

/// A state of any version that is written to a block and read back from it
/// is the state that was written: the same address map, the same next ID,
/// the same network name.
pub proof fn lemma_state_round_trip(
    blocks: Map<Seq<u8>, Seq<u8>>,
    root: Seq<u8>,
    version: Version,
    f: StateFields,
)
    requires
        f.address_map.len() <= u64::MAX,
        vstd::utf8::encode_utf8(f.network_name).len() <= u64::MAX,
    ensures
        version_of_code(init_code(version)) == Some(version),
        stored_state(blocks.insert(root, state_bytes(f)), root) == Some(f),
        forall|other: Seq<u8>|
            other != root ==> stored_map(blocks.insert(root, state_bytes(f)), other) == stored_map(
                blocks,
                other,
            ),
{
    lemma_version_of_code_round_trip(version);
    lemma_parse_state_of_bytes(f);
}

/// Two addresses mapped one after the other, while there are IDs left for
/// both, get two IDs, the second one above the first; each then resolves to
/// its own. The same address mapped twice gets a new ID the second time, and
/// resolves to that one.
pub proof fn lemma_successive_ids(
    entries: Seq<Entry>,
    next_id: u64,
    first: Seq<u8>,
    second: Seq<u8>,
)
    requires
        next_id + 1 < u64::MAX,
    ensures
        ({
            let once = entries.push((first, next_id));
            let twice = once.push((second, (next_id + 1) as u64));
            &&& next_id < next_id + 1
            &&& lookup(once, first) == Some(next_id)
            &&& lookup(twice, second) == Some((next_id + 1) as u64)
            &&& first != second ==> lookup(twice, first) == Some(next_id)
            &&& first == second ==> lookup(twice, first) == Some((next_id + 1) as u64)
        }),
{
    let once = entries.push((first, next_id));
    lemma_lookup_after_push(entries, first, next_id, second);
    lemma_lookup_after_push(once, second, (next_id + 1) as u64, first);
}

/// An address that was never mapped does not resolve: in a map with no
/// entry for it, its lookup finds nothing.
pub proof fn lemma_unmapped_address_is_not_found(entries: Seq<Entry>, key: Seq<u8>)
    requires
        forall|i: int| 0 <= i < entries.len() ==> (#[trigger] entries[i]).0 != key,
    ensures
        lookup(entries, key) is None,
        resolved(entries, key) is None,
    decreases entries.len(),
{
    if entries.len() > 0 {
        let front = entries.drop_last();
        assert forall|i: int| 0 <= i < front.len() implies (#[trigger] front[i]).0 != key by {
            assert(front[i] == entries[i]);
        }
        lemma_unmapped_address_is_not_found(front, key);
    }
}

} // verus!

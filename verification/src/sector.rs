//! What the proof-verifying system calls are handed: pieces, sectors and
//! proofs. The execution core carries these to the provider and prices the
//! call; it reads none of the proofs itself.

use vstd::prelude::*;
use crate::address::ActorID;
use crate::cid::Cid;

verus! {

/// The number of a sector within its miner.
pub type SectorNumber = u64;

/// The number of a storage deal.
pub type DealID = u64;

/// The proof that a sector was registered with.
#[derive(Clone, Copy, Debug, PartialEq, Eq, Structural)]
pub enum RegisteredProof {
    StackedDRG32GiBSeal,
    StackedDRG32GiBPoSt,
    StackedDRG2KiBSeal,
    StackedDRG2KiBPoSt,
    StackedDRG8MiBSeal,
    StackedDRG8MiBPoSt,
    StackedDRG512MiBSeal,
    StackedDRG512MiBPoSt,
}

impl Default for RegisteredProof {
    fn default() -> (p: RegisteredProof)
        ensures
            p == RegisteredProof::StackedDRG32GiBSeal,
    {
        RegisteredProof::StackedDRG32GiBSeal
    }
}

/// A piece of data in a sector: its padded size and its identifier.
#[derive(Clone, Debug, PartialEq, Eq)]
pub struct PieceInfo {
    pub size: u64,
    pub cid: Cid,
}

/// A sector, named by its miner and its number.
#[derive(Clone, Copy, Debug, PartialEq, Eq, Structural)]
pub struct SectorID {
    pub miner: ActorID,
    pub number: SectorNumber,
}

/// What is needed to verify the seal of a sector.
#[derive(Clone, Debug, PartialEq, Eq)]
pub struct SealVerifyInfo {
    pub sector_id: SectorID,
    pub registered_proof: RegisteredProof,
    pub deal_ids: Vec<DealID>,
    pub randomness: Vec<u8>,
    pub interactive_randomness: Vec<u8>,
    pub proof: Vec<u8>,
    pub sealed_cid: Cid,
    pub unsealed_cid: Cid,
}

impl Default for SealVerifyInfo {
    /// The seal of sector 0 of miner 0, with nothing in any of its fields.
    fn default() -> (vi: SealVerifyInfo)
        ensures
            vi.sector_id == (SectorID { miner: 0, number: 0 }),
            vi.registered_proof == RegisteredProof::StackedDRG32GiBSeal,
            vi.deal_ids@ == Seq::<DealID>::empty(),
            vi.randomness@ == Seq::<u8>::empty(),
            vi.interactive_randomness@ == Seq::<u8>::empty(),
            vi.proof@ == Seq::<u8>::empty(),
            vi.sealed_cid@ == Seq::<u8>::empty(),
            vi.unsealed_cid@ == Seq::<u8>::empty(),
    {
        SealVerifyInfo {
            sector_id: SectorID { miner: 0, number: 0 },
            registered_proof: RegisteredProof::StackedDRG32GiBSeal,
            deal_ids: Vec::new(),
            randomness: Vec::new(),
            interactive_randomness: Vec::new(),
            proof: Vec::new(),
            sealed_cid: Cid { bytes: Vec::new() },
            unsealed_cid: Cid { bytes: Vec::new() },
        }
    }
}

/// One proof of spacetime.
#[derive(Clone, Debug, PartialEq, Eq)]
pub struct PoStProof {
    pub registered_proof: RegisteredProof,
    pub proof_bytes: Vec<u8>,
}

/// A sector as a proof of spacetime refers to it.
#[derive(Clone, Debug, PartialEq, Eq)]
pub struct SectorInfo {
    pub proof: RegisteredProof,
    pub sector_number: SectorNumber,
    pub sealed_cid: Cid,
}

/// What is needed to verify a window proof of spacetime.
#[derive(Clone, Debug, PartialEq, Eq)]
pub struct WindowPoStVerifyInfo {
    pub randomness: Vec<u8>,
    pub proofs: Vec<PoStProof>,
    pub challenged_sectors: Vec<SectorInfo>,
    pub prover: ActorID,
}

impl Default for WindowPoStVerifyInfo {
    /// A proof of spacetime by miner 0 over no sectors.
    fn default() -> (vi: WindowPoStVerifyInfo)
        ensures
            vi.randomness@ == Seq::<u8>::empty(),
            vi.proofs@ == Seq::<PoStProof>::empty(),
            vi.challenged_sectors@ == Seq::<SectorInfo>::empty(),
            vi.prover == 0,
    {
        WindowPoStVerifyInfo {
            randomness: Vec::new(),
            proofs: Vec::new(),
            challenged_sectors: Vec::new(),
            prover: 0,
        }
    }
}

} // verus!

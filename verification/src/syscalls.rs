//! The system calls: the cryptographic and proof-verifying operations that
//! the node provides to actors.
//!
//! A provider implements `Syscalls`. Beside each operation stands a predicate
//! that relates the provider before the call, the provider after it, the
//! arguments and the result; the operation promises that its predicate holds.
//! A provider that says nothing of itself keeps the predicates as they are
//! given here, true of every outcome; a decorator states in them what it adds.

use vstd::prelude::*;
use crate::address::Address;
use crate::cid::Cid;
use crate::crypto::Signature;
use crate::sector::{PieceInfo, RegisteredProof, SealVerifyInfo, WindowPoStVerifyInfo};

verus! {

/// The height of a block in the chain.
pub type ChainEpoch = i64;

/// What a miner did to commit a consensus fault.
#[derive(Clone, Copy, Debug, PartialEq, Eq, Structural)]
pub enum ConsensusFaultType {
    DoubleForkMining,
    ParentGrinding,
    TimeOffsetMining,
}

/// A consensus fault that two block headers prove.
#[derive(Clone, Copy, Debug, PartialEq, Eq)]
pub struct ConsensusFault {
    /// The miner at fault.
    pub target: Address,
    /// The epoch of the fault.
    pub epoch: ChainEpoch,
    /// What the miner did.
    pub fault_type: ConsensusFaultType,
}

/// Why a system call gave no answer.
#[derive(Clone, Debug, PartialEq, Eq)]
pub enum SyscallError {
    /// The gas for the call could not be charged; the call was not made.
    OutOfGas,
    /// The provider refused or failed: a signature that does not verify, a
    /// proof that does not hold, input that it cannot read.
    Failed(String),
}

/// The capability set that actors reach the provider's primitives through.
pub trait Syscalls: Sized {
    /// What `verify_signature` promises of a call.
    open spec fn verify_signature_post(
        pre: Self,
        post: Self,
        signature: Signature,
        signer: Address,
        plaintext: Seq<u8>,
        r: Result<(), SyscallError>,
    ) -> bool {
        true
    }

    /// What `hash_blake2b` promises of a call.
    open spec fn hash_blake2b_post(
        pre: Self,
        post: Self,
        data: Seq<u8>,
        r: Result<[u8; 32], SyscallError>,
    ) -> bool {
        true
    }

    /// What `compute_unsealed_sector_cid` promises of a call.
    open spec fn compute_unsealed_sector_cid_post(
        pre: Self,
        post: Self,
        reg: RegisteredProof,
        pieces: Seq<PieceInfo>,
        r: Result<Cid, SyscallError>,
    ) -> bool {
        true
    }

    /// What `verify_seal` promises of a call.
    open spec fn verify_seal_post(
        pre: Self,
        post: Self,
        vi: SealVerifyInfo,
        r: Result<(), SyscallError>,
    ) -> bool {
        true
    }

    /// What `verify_post` promises of a call.
    open spec fn verify_post_post(
        pre: Self,
        post: Self,
        vi: WindowPoStVerifyInfo,
        r: Result<(), SyscallError>,
    ) -> bool {
        true
    }

    /// What `verify_consensus_fault` promises of a call.
    open spec fn verify_consensus_fault_post(
        pre: Self,
        post: Self,
        h1: Seq<u8>,
        h2: Seq<u8>,
        extra: Seq<u8>,
        earliest: ChainEpoch,
        r: Result<Option<ConsensusFault>, SyscallError>,
    ) -> bool {
        true
    }

    /// Verifies that `signature` is the signature of `signer` over
    /// `plaintext`.
    fn verify_signature(&mut self, signature: &Signature, signer: &Address, plaintext: &[u8]) -> (r:
        Result<(), SyscallError>)
        ensures
            Self::verify_signature_post(
                *old(self),
                *final(self),
                *signature,
                *signer,
                plaintext@,
                r,
            ),
    ;

    /// Hashes `data` to a digest of 32 bytes.
    fn hash_blake2b(&mut self, data: &[u8]) -> (r: Result<[u8; 32], SyscallError>)
        ensures
            Self::hash_blake2b_post(*old(self), *final(self), data@, r),
    ;

    /// Computes the identifier of the unsealed sector made of `pieces`.
    fn compute_unsealed_sector_cid(&mut self, reg: RegisteredProof, pieces: &[PieceInfo]) -> (r:
        Result<Cid, SyscallError>)
        ensures
            Self::compute_unsealed_sector_cid_post(*old(self), *final(self), reg, pieces@, r),
    ;

    /// Verifies the seal of a sector.
    fn verify_seal(&mut self, vi: &SealVerifyInfo) -> (r: Result<(), SyscallError>)
        ensures
            Self::verify_seal_post(*old(self), *final(self), *vi, r),
    ;

    /// Verifies a window proof of spacetime.
    fn verify_post(&mut self, vi: &WindowPoStVerifyInfo) -> (r: Result<(), SyscallError>)
        ensures
            Self::verify_post_post(*old(self), *final(self), *vi, r),
    ;

    /// Checks whether the block headers `h1` and `h2` prove a consensus fault
    /// no earlier than `earliest`: `Ok(None)` when they prove none, the fault
    /// when they do, and an error when the input cannot be read.
    fn verify_consensus_fault(
        &mut self,
        h1: &[u8],
        h2: &[u8],
        extra: &[u8],
        earliest: ChainEpoch,
    ) -> (r: Result<Option<ConsensusFault>, SyscallError>)
        ensures
            Self::verify_consensus_fault_post(
                *old(self),
                *final(self),
                h1@,
                h2@,
                extra@,
                earliest,
                r,
            ),
    ;
}

} // verus!

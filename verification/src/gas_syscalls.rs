//! The metering decorator: system calls that are paid for before they run.

use vstd::prelude::*;
use crate::address::Address;
use crate::cid::Cid;
use crate::crypto::Signature;
use crate::gas_tracker::GasTracker;
use crate::price_list::PriceList;
use crate::sector::{PieceInfo, RegisteredProof, SealVerifyInfo, WindowPoStVerifyInfo};
use crate::syscalls::{ChainEpoch, ConsensusFault, SyscallError, Syscalls};

verus! {

/// A provider of system calls behind a meter. Each call is priced by
/// `price_list` and charged to `gas`; only a call whose charge went through
/// reaches `syscalls`.
pub struct GasSyscalls<S> {
    pub price_list: PriceList,
    pub gas: GasTracker,
    pub syscalls: S,
}

/// What a metered call of price `cost` does to the decorator.
///
/// Where the tracker can take the charge, the gas used grows by exactly
/// `cost` and `delegated` holds: the provider's own promise for this call,
/// with the decorator's result as the provider's. Where it cannot, the
/// result is `OutOfGas`, the gas used stays, and the provider is the value it
/// was: no call has reached it and changed it.
pub open spec fn metered<S>(
    pre: GasSyscalls<S>,
    post: GasSyscalls<S>,
    cost: nat,
    out_of_gas: bool,
    delegated: bool,
) -> bool {
    &&& post.price_list == pre.price_list
    &&& post.gas.limit() == pre.gas.limit()
    &&& if pre.gas.can_charge(cost) {
        &&& post.gas.used() == pre.gas.used() + cost
        &&& delegated
    } else {
        &&& post.gas.used() == pre.gas.used()
        &&& post.syscalls == pre.syscalls
        &&& out_of_gas
    }
}

/// Whether `gas` can take a charge of `price`: the price fits in 64 bits and
/// the tracker can be charged with it.
pub open spec fn affordable(gas: GasTracker, price: Option<u64>) -> bool {
    price matches Some(cost) && gas.can_charge(cost as nat)
}

impl<S> GasSyscalls<S> {
    /// Charges a priced call to the tracker. A price that does not fit in 64
    /// bits is above every limit: it is refused like any other charge that
    /// the tracker cannot take.
    pub fn charge(&mut self, price: Option<u64>) -> (r: Result<(), SyscallError>)
        ensures
            final(self).price_list == old(self).price_list,
            final(self).syscalls == old(self).syscalls,
            final(self).gas.limit() == old(self).gas.limit(),
            affordable(old(self).gas, price) ==> r is Ok && final(self).gas.used() == old(
                self,
            ).gas.used() + price->0,
            !affordable(old(self).gas, price) ==> r == Err::<(), SyscallError>(
                SyscallError::OutOfGas,
            ) && final(self).gas.used() == old(self).gas.used(),
    {
        match price {
            Some(cost) => match self.gas.charge_gas(cost) {
                Ok(()) => Ok(()),
                Err(_) => Err(SyscallError::OutOfGas),
            },
            None => Err(SyscallError::OutOfGas),
        }
    }
}

impl<S: Syscalls> Syscalls for GasSyscalls<S> {
    open spec fn verify_signature_post(
        pre: Self,
        post: Self,
        signature: Signature,
        signer: Address,
        plaintext: Seq<u8>,
        r: Result<(), SyscallError>,
    ) -> bool {
        metered(
            pre,
            post,
            pre.price_list.verify_signature_cost(signature.sig_type, plaintext.len()),
            r == Err::<(), SyscallError>(SyscallError::OutOfGas),
            S::verify_signature_post(pre.syscalls, post.syscalls, signature, signer, plaintext, r),
        )
    }

    open spec fn hash_blake2b_post(
        pre: Self,
        post: Self,
        data: Seq<u8>,
        r: Result<[u8; 32], SyscallError>,
    ) -> bool {
        metered(
            pre,
            post,
            pre.price_list.hashing_cost(data.len()),
            r == Err::<[u8; 32], SyscallError>(SyscallError::OutOfGas),
            S::hash_blake2b_post(pre.syscalls, post.syscalls, data, r),
        )
    }

    open spec fn compute_unsealed_sector_cid_post(
        pre: Self,
        post: Self,
        reg: RegisteredProof,
        pieces: Seq<PieceInfo>,
        r: Result<Cid, SyscallError>,
    ) -> bool {
        metered(
            pre,
            post,
            pre.price_list.compute_unsealed_sector_cid_cost(reg, pieces),
            r == Err::<Cid, SyscallError>(SyscallError::OutOfGas),
            S::compute_unsealed_sector_cid_post(pre.syscalls, post.syscalls, reg, pieces, r),
        )
    }

    open spec fn verify_seal_post(
        pre: Self,
        post: Self,
        vi: SealVerifyInfo,
        r: Result<(), SyscallError>,
    ) -> bool {
        metered(
            pre,
            post,
            pre.price_list.verify_seal_cost(vi),
            r == Err::<(), SyscallError>(SyscallError::OutOfGas),
            S::verify_seal_post(pre.syscalls, post.syscalls, vi, r),
        )
    }

    open spec fn verify_post_post(
        pre: Self,
        post: Self,
        vi: WindowPoStVerifyInfo,
        r: Result<(), SyscallError>,
    ) -> bool {
        metered(
            pre,
            post,
            pre.price_list.verify_post_cost(vi),
            r == Err::<(), SyscallError>(SyscallError::OutOfGas),
            S::verify_post_post(pre.syscalls, post.syscalls, vi, r),
        )
    }

    open spec fn verify_consensus_fault_post(
        pre: Self,
        post: Self,
        h1: Seq<u8>,
        h2: Seq<u8>,
        extra: Seq<u8>,
        earliest: ChainEpoch,
        r: Result<Option<ConsensusFault>, SyscallError>,
    ) -> bool {
        metered(
            pre,
            post,
            pre.price_list.verify_consensus_fault_cost(),
            r == Err::<Option<ConsensusFault>, SyscallError>(SyscallError::OutOfGas),
            S::verify_consensus_fault_post(
                pre.syscalls,
                post.syscalls,
                h1,
                h2,
                extra,
                earliest,
                r,
            ),
        )
    }

    /// Charges the price of verifying a signature of this scheme over a
    /// plaintext of this length, then has the provider verify it.
    fn verify_signature(&mut self, signature: &Signature, signer: &Address, plaintext: &[u8]) -> (r:
        Result<(), SyscallError>)
        ensures
            metered(
                *old(self),
                *final(self),
                old(self).price_list.verify_signature_cost(signature.sig_type, plaintext@.len()),
                r == Err::<(), SyscallError>(SyscallError::OutOfGas),
                S::verify_signature_post(
                    old(self).syscalls,
                    final(self).syscalls,
                    *signature,
                    *signer,
                    plaintext@,
                    r,
                ),
            ),
    {
        let price = self.price_list.on_verify_signature(
            signature.signature_type(),
            plaintext.len(),
        );
        match self.charge(price) {
            Ok(()) => self.syscalls.verify_signature(signature, signer, plaintext),
            Err(e) => Err(e),
        }
    }

    /// Charges the price of hashing data of this length, then has the
    /// provider hash it.
    fn hash_blake2b(&mut self, data: &[u8]) -> (r: Result<[u8; 32], SyscallError>)
        ensures
            metered(
                *old(self),
                *final(self),
                old(self).price_list.hashing_cost(data@.len()),
                r == Err::<[u8; 32], SyscallError>(SyscallError::OutOfGas),
                S::hash_blake2b_post(old(self).syscalls, final(self).syscalls, data@, r),
            ),
    {
        let price = self.price_list.on_hashing(data.len());
        match self.charge(price) {
            Ok(()) => self.syscalls.hash_blake2b(data),
            Err(e) => Err(e),
        }
    }

    /// Charges the price of computing the identifier of an unsealed sector,
    /// then has the provider compute it.
    fn compute_unsealed_sector_cid(&mut self, reg: RegisteredProof, pieces: &[PieceInfo]) -> (r:
        Result<Cid, SyscallError>)
        ensures
            metered(
                *old(self),
                *final(self),
                old(self).price_list.compute_unsealed_sector_cid_cost(reg, pieces@),
                r == Err::<Cid, SyscallError>(SyscallError::OutOfGas),
                S::compute_unsealed_sector_cid_post(
                    old(self).syscalls,
                    final(self).syscalls,
                    reg,
                    pieces@,
                    r,
                ),
            ),
    {
        let price = self.price_list.on_compute_unsealed_sector_cid(reg, pieces);
        match self.charge(price) {
            Ok(()) => self.syscalls.compute_unsealed_sector_cid(reg, pieces),
            Err(e) => Err(e),
        }
    }

    /// Charges the price of verifying a seal, then has the provider verify it.
    fn verify_seal(&mut self, vi: &SealVerifyInfo) -> (r: Result<(), SyscallError>)
        ensures
            metered(
                *old(self),
                *final(self),
                old(self).price_list.verify_seal_cost(*vi),
                r == Err::<(), SyscallError>(SyscallError::OutOfGas),
                S::verify_seal_post(old(self).syscalls, final(self).syscalls, *vi, r),
            ),
    {
        let price = self.price_list.on_verify_seal(vi);
        match self.charge(price) {
            Ok(()) => self.syscalls.verify_seal(vi),
            Err(e) => Err(e),
        }
    }

    /// Charges the price of verifying a proof of spacetime, then has the
    /// provider verify it.
    fn verify_post(&mut self, vi: &WindowPoStVerifyInfo) -> (r: Result<(), SyscallError>)
        ensures
            metered(
                *old(self),
                *final(self),
                old(self).price_list.verify_post_cost(*vi),
                r == Err::<(), SyscallError>(SyscallError::OutOfGas),
                S::verify_post_post(old(self).syscalls, final(self).syscalls, *vi, r),
            ),
    {
        let price = self.price_list.on_verify_post(vi);
        match self.charge(price) {
            Ok(()) => self.syscalls.verify_post(vi),
            Err(e) => Err(e),
        }
    }

    /// Charges the flat price of verifying a consensus fault, then has the
    /// provider check the headers.
    fn verify_consensus_fault(
        &mut self,
        h1: &[u8],
        h2: &[u8],
        extra: &[u8],
        earliest: ChainEpoch,
    ) -> (r: Result<Option<ConsensusFault>, SyscallError>)
        ensures
            metered(
                *old(self),
                *final(self),
                old(self).price_list.verify_consensus_fault_cost(),
                r == Err::<Option<ConsensusFault>, SyscallError>(SyscallError::OutOfGas),
                S::verify_consensus_fault_post(
                    old(self).syscalls,
                    final(self).syscalls,
                    h1@,
                    h2@,
                    extra@,
                    earliest,
                    r,
                ),
            ),
    {
        let price = self.price_list.on_verify_consensus_fault();
        match self.charge(price) {
            Ok(()) => self.syscalls.verify_consensus_fault(h1, h2, extra, earliest),
            Err(e) => Err(e),
        }
    }
}

} // verus!

//! The price schedule: what each chargeable operation costs in gas.
//!
//! Every price is a function of the schedule and of the sizes and parameters
//! of the request, and of nothing else. The prices are stated over the
//! natural numbers; the executable functions return `None` where a price
//! does not fit in 64 bits, which no gas limit can pay for.

use vstd::prelude::*;
use crate::crypto::SignatureType;
use crate::sector::{PieceInfo, RegisteredProof, SealVerifyInfo, WindowPoStVerifyInfo};

verus! {

/// Gas per byte of plaintext that verifying a signature costs.
pub const VERIFY_SIGNATURE_PER_BYTE: u64 = 3;

/// Gas that verifying a signature costs whatever the plaintext.
pub const VERIFY_SIGNATURE_BASE: u64 = 2;

/// A price as the executable functions report it: the price itself where it
/// fits in 64 bits, and `None` where it does not.
pub open spec fn fit(cost: nat) -> Option<u64> {
    if cost <= u64::MAX {
        Some(cost as u64)
    } else {
        None
    }
}

/// The price schedule of one protocol version.
#[derive(Clone, Copy, Debug, PartialEq, Eq, Structural)]
pub struct PriceList {
    /// Gas for putting a message on chain, whatever its size.
    pub on_chain_message_base: u64,
    /// Gas per byte of a message put on chain.
    pub on_chain_message_per_byte: u64,
    /// Gas per byte of a return value put on chain.
    pub on_chain_return_value_per_byte: u64,
    /// Gas for hashing, whatever the size of the data.
    pub hashing_base: u64,
    /// Gas per byte of data hashed.
    pub hashing_per_byte: u64,
    /// Gas for computing the identifier of an unsealed sector.
    pub compute_unsealed_sector_cid_base: u64,
    /// Gas for verifying the seal of a sector.
    pub verify_seal_base: u64,
    /// Gas for verifying a proof of spacetime.
    pub verify_post_base: u64,
    /// Gas for verifying a consensus fault.
    pub verify_consensus_fault: u64,
}

impl Default for PriceList {
    /// The schedule in which every entry is zero.
    fn default() -> (p: PriceList)
        ensures
            p == (PriceList {
                on_chain_message_base: 0,
                on_chain_message_per_byte: 0,
                on_chain_return_value_per_byte: 0,
                hashing_base: 0,
                hashing_per_byte: 0,
                compute_unsealed_sector_cid_base: 0,
                verify_seal_base: 0,
                verify_post_base: 0,
                verify_consensus_fault: 0,
            }),
    {
        PriceList {
            on_chain_message_base: 0,
            on_chain_message_per_byte: 0,
            on_chain_return_value_per_byte: 0,
            hashing_base: 0,
            hashing_per_byte: 0,
            compute_unsealed_sector_cid_base: 0,
            verify_seal_base: 0,
            verify_post_base: 0,
            verify_consensus_fault: 0,
        }
    }
}

impl PriceList {
    /// Price of putting a message of `msg_size` bytes on chain.
    pub open spec fn chain_message_cost(&self, msg_size: nat) -> nat {
        self.on_chain_message_base as nat + self.on_chain_message_per_byte as nat * msg_size
    }

    /// Price of putting a return value of `data_size` bytes on chain.
    pub open spec fn chain_return_value_cost(&self, data_size: nat) -> nat {
        self.on_chain_return_value_per_byte as nat * data_size
    }

    /// Price of verifying a signature of scheme `sig_type` over a plaintext of
    /// `plaintext_size` bytes. Both schemes are priced alike.
    pub open spec fn verify_signature_cost(
        &self,
        sig_type: SignatureType,
        plaintext_size: nat,
    ) -> nat {
        match sig_type {
            SignatureType::BLS => VERIFY_SIGNATURE_BASE as nat + VERIFY_SIGNATURE_PER_BYTE as nat
                * plaintext_size,
            SignatureType::Secp256k1 => VERIFY_SIGNATURE_BASE as nat
                + VERIFY_SIGNATURE_PER_BYTE as nat * plaintext_size,
        }
    }

    /// Price of hashing `data_size` bytes.
    pub open spec fn hashing_cost(&self, data_size: nat) -> nat {
        self.hashing_base as nat + self.hashing_per_byte as nat * data_size
    }

    /// Price of computing the identifier of an unsealed sector. The pieces add
    /// nothing to the base price.
    pub open spec fn compute_unsealed_sector_cid_cost(
        &self,
        proof: RegisteredProof,
        pieces: Seq<PieceInfo>,
    ) -> nat {
        self.compute_unsealed_sector_cid_base as nat
    }

    /// Price of verifying a seal. The proof adds nothing to the base price.
    pub open spec fn verify_seal_cost(&self, info: SealVerifyInfo) -> nat {
        self.verify_seal_base as nat
    }

    /// Price of verifying a proof of spacetime. The proof adds nothing to the
    /// base price.
    pub open spec fn verify_post_cost(&self, info: WindowPoStVerifyInfo) -> nat {
        self.verify_post_base as nat
    }

    /// Price of verifying a consensus fault: flat, whatever the headers.
    pub open spec fn verify_consensus_fault_cost(&self) -> nat {
        self.verify_consensus_fault as nat
    }

    /// Gas for putting a message of `msg_size` bytes on chain.
    pub fn on_chain_message(&self, msg_size: usize) -> (cost: Option<u64>)
        ensures
            cost == fit(self.chain_message_cost(msg_size as nat)),
    {
        linear(self.on_chain_message_base, self.on_chain_message_per_byte, msg_size)
    }

    /// Gas for putting a return value of `data_size` bytes on chain.
    pub fn on_chain_return_value(&self, data_size: usize) -> (cost: Option<u64>)
        ensures
            cost == fit(self.chain_return_value_cost(data_size as nat)),
    {
        linear(0, self.on_chain_return_value_per_byte, data_size)
    }

    /// Gas for verifying a signature of scheme `sig_type` over a plaintext of
    /// `plaintext_size` bytes.
    pub fn on_verify_signature(&self, sig_type: SignatureType, plaintext_size: usize) -> (cost:
        Option<u64>)
        ensures
            cost == fit(self.verify_signature_cost(sig_type, plaintext_size as nat)),
    {
        match sig_type {
            SignatureType::BLS => linear(
                VERIFY_SIGNATURE_BASE,
                VERIFY_SIGNATURE_PER_BYTE,
                plaintext_size,
            ),
            SignatureType::Secp256k1 => linear(
                VERIFY_SIGNATURE_BASE,
                VERIFY_SIGNATURE_PER_BYTE,
                plaintext_size,
            ),
        }
    }

    /// Gas for hashing `data_size` bytes.
    pub fn on_hashing(&self, data_size: usize) -> (cost: Option<u64>)
        ensures
            cost == fit(self.hashing_cost(data_size as nat)),
    {
        linear(self.hashing_base, self.hashing_per_byte, data_size)
    }

    /// Gas for computing the identifier of an unsealed sector.
    pub fn on_compute_unsealed_sector_cid(
        &self,
        proof: RegisteredProof,
        pieces: &[PieceInfo],
    ) -> (cost: Option<u64>)
        ensures
            cost == fit(self.compute_unsealed_sector_cid_cost(proof, pieces@)),
    {
        Some(self.compute_unsealed_sector_cid_base)
    }

    /// Gas for verifying a seal.
    pub fn on_verify_seal(&self, info: &SealVerifyInfo) -> (cost: Option<u64>)
        ensures
            cost == fit(self.verify_seal_cost(*info)),
    {
        Some(self.verify_seal_base)
    }

    /// Gas for verifying a proof of spacetime.
    pub fn on_verify_post(&self, info: &WindowPoStVerifyInfo) -> (cost: Option<u64>)
        ensures
            cost == fit(self.verify_post_cost(*info)),
    {
        Some(self.verify_post_base)
    }

    /// Gas for verifying a consensus fault.
    pub fn on_verify_consensus_fault(&self) -> (cost: Option<u64>)
        ensures
            cost == fit(self.verify_consensus_fault_cost()),
    {
        Some(self.verify_consensus_fault)
    }
}

/// `base + per_unit * units`, where that fits in 64 bits.
pub fn linear(base: u64, per_unit: u64, units: usize) -> (cost: Option<u64>)
    ensures
        cost == fit(base as nat + per_unit as nat * units as nat),
{
    let scaled: u64 = match per_unit.checked_mul(units as u64) {
        Some(p) => p,
        None => {
            return None;
        },
    };
    base.checked_add(scaled)
}

/// Prices depend on the schedule and on the parameters of the request alone:
/// equal schedules give equal prices for equal requests, whenever and
/// wherever they are asked.
pub proof fn lemma_prices_are_functions_of_their_inputs(
    p: PriceList,
    q: PriceList,
    sig_type: SignatureType,
    size: nat,
    proof: RegisteredProof,
    pieces: Seq<PieceInfo>,
    seal: SealVerifyInfo,
    post: WindowPoStVerifyInfo,
)
    requires
        p == q,
    ensures
        p.chain_message_cost(size) == q.chain_message_cost(size),
        p.chain_return_value_cost(size) == q.chain_return_value_cost(size),
        p.verify_signature_cost(sig_type, size) == q.verify_signature_cost(sig_type, size),
        p.hashing_cost(size) == q.hashing_cost(size),
        p.compute_unsealed_sector_cid_cost(proof, pieces) == q.compute_unsealed_sector_cid_cost(
            proof,
            pieces,
        ),
        p.verify_seal_cost(seal) == q.verify_seal_cost(seal),
        p.verify_post_cost(post) == q.verify_post_cost(post),
        p.verify_consensus_fault_cost() == q.verify_consensus_fault_cost(),
{
}

} // verus!

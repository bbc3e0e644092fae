//! Gas accounting for one message execution.
//!
//! A tracker holds a limit and the gas used so far. `charge_gas` is the only
//! way to consume gas: a charge is applied whole or not at all.

use vstd::prelude::*;
use crate::error::{ActorError, ExitCode};

verus! {

/// Gas used after a charge of `amount` against `limit`, starting from `used`:
/// the charge is added when the sum stays within the limit, and otherwise
/// nothing is added.
pub open spec fn charged(limit: nat, used: nat, amount: nat) -> nat {
    if used + amount <= limit {
        used + amount
    } else {
        used
    }
}

/// Gas used after applying `charges` in order, each by the rule of `charged`.
pub open spec fn charged_all(limit: nat, used: nat, charges: Seq<nat>) -> nat
    decreases charges.len(),
{
    if charges.len() == 0 {
        used
    } else {
        charged(limit, charged_all(limit, used, charges.drop_last()), charges.last())
    }
}

/// The sum of a sequence of charges.
pub open spec fn total(charges: Seq<nat>) -> nat
    decreases charges.len(),
{
    if charges.len() == 0 {
        0
    } else {
        total(charges.drop_last()) + charges.last()
    }
}

/// Accounting object of one message execution.
#[derive(Clone, Copy, Debug, PartialEq, Eq)]
pub struct GasTracker {
    gas_limit: u64,
    gas_used: u64,
}

impl GasTracker {
    /// The limit that charges are held to.
    pub closed spec fn limit(&self) -> u64 {
        self.gas_limit
    }

    /// The gas consumed so far.
    pub closed spec fn used(&self) -> u64 {
        self.gas_used
    }

    /// Whether a charge of `amount` keeps the gas used within the limit.
    pub open spec fn can_charge(&self, amount: nat) -> bool {
        self.used() + amount <= self.limit()
    }

    /// A tracker with the given limit that has already consumed `gas_used`.
    pub fn new(gas_limit: u64, gas_used: u64) -> (tracker: GasTracker)
        ensures
            tracker.limit() == gas_limit,
            tracker.used() == gas_used,
    {
        GasTracker { gas_limit, gas_used }
    }

    /// Consumes `amount` of gas. When the charge would take the gas used
    /// above the limit, it fails with `OutOfGas` and the tracker is left
    /// exactly as it was.
    pub fn charge_gas(&mut self, amount: u64) -> (r: Result<(), ActorError>)
        ensures
            final(self).limit() == old(self).limit(),
            final(self).used() == charged(
                old(self).limit() as nat,
                old(self).used() as nat,
                amount as nat,
            ),
            old(self).can_charge(amount as nat) ==> r is Ok,
            !old(self).can_charge(amount as nat) ==> *final(self) == *old(self) && (r matches Err(e)
                && e@ == (ExitCode::OutOfGas, "not enough gas"@)),
    {
        if self.gas_used <= self.gas_limit && amount <= self.gas_limit - self.gas_used {
            self.gas_used = self.gas_used + amount;
            Ok(())
        } else {
            Err(ActorError::new(ExitCode::OutOfGas, "not enough gas"))
        }
    }

    /// The gas consumed so far.
    pub fn gas_used(&self) -> (used: u64)
        ensures
            used == self.used(),
    {
        self.gas_used
    }

    /// The limit that charges are held to.
    pub fn gas_limit(&self) -> (limit: u64)
        ensures
            limit == self.limit(),
    {
        self.gas_limit
    }
}

/// Gas used never decreases, and a tracker that starts within its limit
/// stays within it, whatever is charged.
pub proof fn lemma_gas_used_is_monotonic(limit: nat, used: nat, charges: Seq<nat>)
    ensures
        used <= charged_all(limit, used, charges),
        used <= limit ==> charged_all(limit, used, charges) <= limit,
        charged_all(limit, used, charges) <= used + total(charges),
    decreases charges.len(),
{
    if charges.len() > 0 {
        lemma_gas_used_is_monotonic(limit, used, charges.drop_last());
    }
}

/// While the running sum of the charges stays within the limit, every charge
/// is applied: the gas used is the starting value plus the sum.
pub proof fn lemma_charges_within_limit_add_up(limit: nat, used: nat, charges: Seq<nat>)
    requires
        used + total(charges) <= limit,
    ensures
        charged_all(limit, used, charges) == used + total(charges),
    decreases charges.len(),
{
    if charges.len() > 0 {
        lemma_charges_within_limit_add_up(limit, used, charges.drop_last());
    }
}

/// The charge that takes the running sum above the limit fails, and gives no
/// partial credit: when the charges before position `k` fit and the one at
/// `k` does not, the gas used after it equals the gas used before it.
pub proof fn lemma_overflowing_charge_changes_nothing(
    limit: nat,
    used: nat,
    charges: Seq<nat>,
    k: int,
)
    requires
        0 <= k < charges.len(),
        used + total(charges.take(k)) <= limit,
        used + total(charges.take(k + 1)) > limit,
    ensures
        charged_all(limit, used, charges.take(k)) == used + total(charges.take(k)),
        charged_all(limit, used, charges.take(k + 1)) == charged_all(
            limit,
            used,
            charges.take(k),
        ),
{
    let before = charges.take(k);
    let upto = charges.take(k + 1);
    assert(upto.drop_last() =~= before);
    assert(upto.last() == charges[k]);
    lemma_charges_within_limit_add_up(limit, used, before);
}

/// Every charge of a sequence is applied whole or not at all: the gas used
/// after the charge at position `k` is the gas used before it plus the
/// charge when that fits the limit, and the gas used before it otherwise.
pub proof fn lemma_each_charge_is_all_or_nothing(
    limit: nat,
    used: nat,
    charges: Seq<nat>,
    k: int,
)
    requires
        0 <= k < charges.len(),
    ensures
        ({
            let before = charged_all(limit, used, charges.take(k));
            let after = charged_all(limit, used, charges.take(k + 1));
            if before + charges[k] <= limit {
                after == before + charges[k]
            } else {
                after == before
            }
        }),
{
    assert(charges.take(k + 1).drop_last() =~= charges.take(k));
    assert(charges.take(k + 1).last() == charges[k]);
}

} // verus!

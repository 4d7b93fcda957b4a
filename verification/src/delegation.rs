//! Per-delegator stake records.

use vstd::prelude::*;

use crate::coin::Coin;
use crate::decimal::{into_base_decimal, Dec, DEC_FRACTIONAL, MAX_DEC_ATOMICS};
use crate::error::MixnetContractError;
use crate::types::MixId;

verus! {

/// A single delegator's stake behind one node.
///
/// The record never stores accrued rewards: the pending reward is always
/// recomputed on demand from the difference between the node's current
/// cumulative reward ratio and the snapshot taken when this record was last
/// settled.
#[derive(Clone, Debug, PartialEq, Eq)]
pub struct Delegation {
    /// Address of the owner of this delegation.
    pub owner: String,

    /// Id of the node towards which the delegation was made.
    pub mix_id: MixId,

    /// Snapshot of the node's cumulative reward ratio taken when this
    /// delegation last observed a settlement.
    pub cumulative_reward_ratio: Dec,

    /// The delegated principal.
    pub amount: Coin,

    /// Block height at which the delegation was made.
    pub height: u64,
}

impl Delegation {
    /// Builds a fresh delegation record.
    pub fn new(
        owner: String,
        mix_id: MixId,
        cumulative_reward_ratio: Dec,
        amount: Coin,
        height: u64,
    ) -> (r: Delegation)
        ensures
            r.owner@ == owner@,
            r.mix_id == mix_id,
            r.cumulative_reward_ratio == cumulative_reward_ratio,
            r.amount == amount,
            r.height == height,
    {
        Delegation { owner, mix_id, cumulative_reward_ratio, amount, height }
    }

    /// The principal as a decimal value. Fails when the integer amount does
    /// not fit the decimal domain.
    pub fn dec_amount(&self) -> (r: Result<Dec, MixnetContractError>)
        ensures
            self.amount.amount * DEC_FRACTIONAL <= MAX_DEC_ATOMICS ==> r.is_ok() && r.unwrap()@
                == self.amount.amount * DEC_FRACTIONAL,
            self.amount.amount * DEC_FRACTIONAL > MAX_DEC_ATOMICS ==> r
                == Err::<Dec, MixnetContractError>(
                MixnetContractError::DecimalRangeExceeded { amount: self.amount.amount },
            ),
    {
        into_base_decimal(self.amount.amount)
    }
}

} // verus!

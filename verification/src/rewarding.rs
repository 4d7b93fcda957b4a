//! The ephemeral result of splitting one epoch's reward, and the conversion
//! from internal decimal accounting back to transferable coins.

use vstd::prelude::*;

use crate::coin::Coin;
use crate::decimal::{Dec, DEC_FRACTIONAL};

verus! {

/// The two shares of one epoch's node reward. Not persisted: it is consumed
/// immediately by reward distribution.
#[derive(Clone, Copy, Debug, PartialEq, Eq, Structural)]
pub struct RewardDistribution {
    /// Share of the reward going to the node operator, operating cost
    /// included.
    pub operator: Dec,

    /// Share of the reward going to the delegators collectively.
    pub delegates: Dec,
}

/// Truncates an internal decimal reward toward zero into a whole number of
/// coins of the given denomination. Truncation guarantees the engine never
/// pays out more than it has accounted for internally.
pub fn truncate_reward(reward: Dec, denom: &str) -> (r: Coin)
    ensures
        r.amount == reward@ / (DEC_FRACTIONAL as int),
        r.denom@ == denom@,
{
    Coin { denom: denom.to_owned(), amount: reward.floor_units() }
}

} // verus!

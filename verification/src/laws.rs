//! Engine-wide laws, stated and proved over the specification functions
//! that the operations' own contracts use.

use vstd::prelude::*;

use crate::decimal::{
    lemma_scaled_div_le_one, lemma_scaled_div_monotone, lemma_scaled_mul_monotone, scaled_div,
    scaled_mul, DEC_FRACTIONAL,
};
use crate::delegation::Delegation;
use crate::mixnode::MixNodeRewarding;
use crate::reward_params::RewardingParams;

verus! {

/// Splitting a reward never creates or destroys value: whenever the node
/// reward exceeds the node cost, the operator's take, the delegators' take
/// and the node cost add up to the node reward exactly, in exact decimal
/// arithmetic. When the reward does not cover the cost, it goes to the
/// operator whole and the delegators receive exactly zero.
pub proof fn lemma_reward_split_conserves_value(
    record: MixNodeRewarding,
    node_reward: int,
    node_performance: int,
    epochs_in_interval: int,
)
    ensures
        ({
            let node_cost = scaled_mul(
                record.cost_params.epoch_operating_cost_spec(epochs_in_interval),
                node_performance,
            );
            let split = record.reward_split_spec(
                node_reward,
                node_performance,
                epochs_in_interval,
            );
            &&& node_reward > node_cost ==> (split.0 - node_cost) + split.1 + node_cost
                == node_reward
            &&& node_reward <= node_cost ==> split.0 == node_reward && split.1 == 0
            &&& split.0 + split.1 == node_reward
        }),
{
}

/// The reward-relevant saturations are capped: for every record with
/// non-negative pools and every positive stake saturation point, both the
/// pledge saturation and the bond saturation are at most one.
pub proof fn lemma_saturations_capped(record: MixNodeRewarding, params: RewardingParams)
    requires
        0 <= record.operator@,
        0 <= record.delegates@,
        0 < params.interval.stake_saturation_point@,
    ensures
        record.pledge_saturation_spec(params) <= DEC_FRACTIONAL,
        record.bond_saturation_spec(params) <= DEC_FRACTIONAL,
{
    let point = params.interval.stake_saturation_point@;
    if record.operator@ <= point {
        lemma_scaled_div_le_one(record.operator@, point);
    }
    if record.node_bond_spec() <= point {
        lemma_scaled_div_le_one(record.node_bond_spec(), point);
    }
}

/// The uncapped bond saturation has no upper bound: it grows linearly with
/// the bond, evaluating to exactly `n` whenever the bond is `n` times the
/// stake saturation point, however large `n` is.
pub proof fn lemma_uncapped_saturation_unbounded(
    record: MixNodeRewarding,
    params: RewardingParams,
    n: int,
)
    requires
        0 <= n,
        0 < params.interval.stake_saturation_point@,
        record.node_bond_spec() == n * params.interval.stake_saturation_point@,
    ensures
        record.uncapped_bond_saturation_spec(params) == n * DEC_FRACTIONAL,
{
    let point = params.interval.stake_saturation_point@;
    let e = DEC_FRACTIONAL as int;
    assert((n * point) * e == point * (n * e)) by (nonlinear_arith);
    vstd::arithmetic::div_mod::lemma_div_multiples_vanish(n * e, point);
}

/// For a fixed delegation snapshot, the pending reward is non-decreasing as
/// the node's cumulative unit reward advances across successive
/// settlements.
pub proof fn lemma_delegation_reward_monotonic(
    earlier: MixNodeRewarding,
    later: MixNodeRewarding,
    delegation: Delegation,
)
    requires
        earlier.unit_delegation@ == later.unit_delegation@,
        0 < earlier.unit_delegation@,
        earlier.total_unit_reward@ <= later.total_unit_reward@,
        0 <= delegation.cumulative_reward_ratio@ <= earlier.total_unit_reward@,
    ensures
        earlier.pending_reward_spec(delegation) <= later.pending_reward_spec(delegation),
{
    let snapshot = delegation.cumulative_reward_ratio@;
    let amount = delegation.amount.amount * (DEC_FRACTIONAL as int);
    let adjust = snapshot + earlier.unit_delegation@;
    lemma_scaled_mul_monotone(
        earlier.total_unit_reward@ - snapshot,
        later.total_unit_reward@ - snapshot,
        amount,
    );
    lemma_scaled_div_monotone(
        scaled_mul(earlier.total_unit_reward@ - snapshot, amount),
        scaled_mul(later.total_unit_reward@ - snapshot, amount),
        adjust,
    );
}

} // verus!

//! Mixnode bonding data and the per-node rewarding engine.
//!
//! [`MixNodeRewarding`] is the consensus-critical heart of the module: it
//! keeps the operator and delegate token pools of one node together with a
//! single cumulative reward ratio, so that epoch settlement costs O(1)
//! regardless of the number of delegators, while every delegator can still
//! realise their exact accrued share on demand.

use vstd::prelude::*;

use crate::coin::Coin;
use crate::constants::{unit_delegation_base, TOKEN_SUPPLY, UNIT_DELEGATION_BASE_ATOMICS};
use crate::decimal::{
    into_base_decimal, lemma_scaled_div_le_one, lemma_scaled_div_le_self,
    lemma_scaled_div_nonneg, lemma_scaled_mul_le_left, lemma_scaled_mul_nonneg, scaled_div,
    scaled_mul, Dec, DEC_FRACTIONAL, MAX_DEC_ATOMICS,
};
use crate::delegation::Delegation;
use crate::error::MixnetContractError;
use crate::percent::Percent;
use crate::reward_params::{set_size_atomics, NodeRewardParams, RewardingParams};
use crate::rewarding::{truncate_reward, RewardDistribution};
use crate::types::{EpochEventId, EpochId, IdentityKey, MixId, SphinxKey};

verus! {

/// Current state of a node in the rewarded set.
#[derive(Clone, Copy, Debug, PartialEq, Eq, Structural)]
pub enum RewardedSetNodeStatus {
    /// The node is expected to be used by clients for mixing packets.
    Active,

    /// The node is in the rewarded set but not active.
    Standby,
}

impl RewardedSetNodeStatus {
    /// Whether the node is in the active set.
    pub fn is_active(&self) -> (r: bool)
        ensures
            r == (self is Active),
    {
        matches!(self, RewardedSetNodeStatus::Active)
    }
}

/// Layer assigned to a mixnode.
#[derive(Clone, Copy, Debug, PartialEq, Eq, PartialOrd, Ord, Hash, Structural)]
pub enum Layer {
    /// First mixing layer.
    One,

    /// Second mixing layer.
    Two,

    /// Third mixing layer.
    Three,
}

impl Layer {
    /// Parses a layer number; only one, two and three are valid layers.
    pub fn try_from(value: u8) -> (r: Result<Layer, MixnetContractError>)
        ensures
            value == 1 ==> r == Ok::<Layer, MixnetContractError>(Layer::One),
            value == 2 ==> r == Ok::<Layer, MixnetContractError>(Layer::Two),
            value == 3 ==> r == Ok::<Layer, MixnetContractError>(Layer::Three),
            !(1 <= value <= 3) ==> r == Err::<Layer, MixnetContractError>(
                MixnetContractError::InvalidLayer(value),
            ),
    {
        match value {
            1 => Ok(Layer::One),
            2 => Ok(Layer::Two),
            3 => Ok(Layer::Three),
            _ => Err(MixnetContractError::InvalidLayer(value)),
        }
    }
}

impl From<Layer> for u8 {
    fn from(layer: Layer) -> (r: u8) {
        match layer {
            Layer::One => 1,
            Layer::Two => 2,
            Layer::Three => 3,
        }
    }
}

impl vstd::std_specs::convert::FromSpecImpl<Layer> for u8 {
    open spec fn obeys_from_spec() -> bool {
        true
    }

    open spec fn from_spec(layer: Layer) -> u8 {
        match layer {
            Layer::One => 1,
            Layer::Two => 2,
            Layer::Three => 3,
        }
    }
}

/// Information provided by the node operator during bonding that lets other
/// entities use the services of this node.
#[derive(Clone, Debug, PartialEq, Eq)]
pub struct MixNode {
    /// Network address of this mixnode.
    pub host: String,

    /// Port used for listening for mix packets.
    pub mix_port: u16,

    /// Port used for listening for verloc requests.
    pub verloc_port: u16,

    /// Port used by the node's http api.
    pub http_api_port: u16,

    /// Base58-encoded x25519 public key used for sphinx key derivation.
    pub sphinx_key: SphinxKey,

    /// Base58-encoded ed25519 EdDSA public key.
    pub identity_key: IdentityKey,

    /// Self-reported version of the node.
    pub version: String,
}

/// Adjustments to a mixnode that ought to happen during future epoch
/// transitions.
#[derive(Clone, Copy, Debug, PartialEq, Eq, Structural)]
pub struct PendingMixNodeChanges {
    /// Id of the epoch event that will change the pledge, if any.
    pub pledge_change: Option<EpochEventId>,
}

impl PendingMixNodeChanges {
    /// No pending changes.
    pub fn new_empty() -> (r: PendingMixNodeChanges)
        ensures
            r.pledge_change is None,
    {
        PendingMixNodeChanges { pledge_change: None }
    }
}

/// Operator-requested update of the node's configuration.
#[derive(Clone, Debug, PartialEq, Eq)]
pub struct MixNodeConfigUpdate {
    /// New network address.
    pub host: String,

    /// New mix port.
    pub mix_port: u16,

    /// New verloc port.
    pub verloc_port: u16,

    /// New http api port.
    pub http_api_port: u16,

    /// New self-reported version.
    pub version: String,
}

/// The cost function declared by the operator of a mixnode; it determines
/// how rewards are split between the operator and the delegators.
#[derive(Clone, Debug, PartialEq, Eq)]
pub struct MixNodeCostParams {
    /// The desired fraction of the node profit to be distributed to the
    /// operator before splitting the rest by stake.
    pub profit_margin_percent: Percent,

    /// Operating cost of the node over one whole interval.
    pub interval_operating_cost: Coin,
}

impl MixNodeCostParams {
    /// The operating cost of one epoch: the interval cost divided evenly
    /// over the epochs of the interval.
    pub open spec fn epoch_operating_cost_spec(self, epochs_in_interval: int) -> int {
        scaled_div(self.interval_operating_cost.amount as int, epochs_in_interval)
    }

    /// Operating cost of a single epoch, as a decimal.
    pub fn epoch_operating_cost(&self, epochs_in_interval: u32) -> (r: Dec)
        requires
            1 <= epochs_in_interval,
            self.epoch_operating_cost_spec(epochs_in_interval as int) <= MAX_DEC_ATOMICS,
        ensures
            r@ == self.epoch_operating_cost_spec(epochs_in_interval as int),
    {
        Dec::from_ratio(self.interval_operating_cost.amount, epochs_in_interval as u128)
    }
}

/// Per-node economic state: the operator and delegate pools, and the
/// cumulative reward ratio that delegations settle against.
#[derive(Clone, Debug, PartialEq, Eq)]
pub struct MixNodeRewarding {
    /// Operator-declared cost function of this node.
    pub cost_params: MixNodeCostParams,

    /// Total pledge and compounded reward earned by the node operator.
    pub operator: Dec,

    /// Total delegation and compounded reward earned by all delegators
    /// together.
    pub delegates: Dec,

    /// Cumulative reward earned by the reference "unit delegation" since
    /// genesis.
    pub total_unit_reward: Dec,

    /// Value of the reference "unit delegation"; fixed at genesis.
    pub unit_delegation: Dec,

    /// The epoch this node was last rewarded in, so that a node is never
    /// rewarded twice for the same epoch.
    pub last_rewarded_epoch: EpochId,

    /// Number of delegations currently made towards this node; lets the
    /// engine detect the removal of the final delegation without scanning
    /// storage.
    pub unique_delegations: u32,
}

impl MixNodeRewarding {
    /// Well-formedness of the record, established at bonding and preserved
    /// by every operation: the unit delegation is a fixed positive
    /// reference of at least one whole unit, a node without delegations
    /// holds no delegate tokens, and the sums the engine forms stay
    /// representable.
    pub open spec fn wf(self) -> bool {
        &&& DEC_FRACTIONAL <= self.unit_delegation@
        &&& self.unit_delegation@ + self.total_unit_reward@ <= MAX_DEC_ATOMICS
        &&& self.operator@ + self.delegates@ <= MAX_DEC_ATOMICS
        &&& (self.unique_delegations == 0 ==> self.delegates@ == 0)
    }

    /// Total stake behind the node.
    pub open spec fn node_bond_spec(self) -> int {
        self.operator@ + self.delegates@
    }

    /// Creates the rewarding record of a freshly bonded node: the operator
    /// pool holds exactly the pledge, nothing has been delegated and no
    /// reward has accrued.
    pub fn initialise_new(
        cost_params: MixNodeCostParams,
        initial_pledge: &Coin,
        current_epoch: EpochId,
    ) -> (r: Result<MixNodeRewarding, MixnetContractError>)
        requires
            initial_pledge.amount <= TOKEN_SUPPLY,
        ensures
            r.is_ok(),
            r.unwrap().wf(),
            r.unwrap().cost_params == cost_params,
            r.unwrap().operator@ == initial_pledge.amount * DEC_FRACTIONAL,
            r.unwrap().delegates@ == 0,
            r.unwrap().total_unit_reward@ == 0,
            r.unwrap().unit_delegation@ == UNIT_DELEGATION_BASE_ATOMICS,
            r.unwrap().last_rewarded_epoch == current_epoch,
            r.unwrap().unique_delegations == 0,
    {
        proof {
            assert(initial_pledge.amount * (DEC_FRACTIONAL as int) <= MAX_DEC_ATOMICS)
                by (nonlinear_arith)
                requires
                    initial_pledge.amount <= 1_000_000_000_000_000u128,
                    DEC_FRACTIONAL == 1_000_000_000_000_000_000u128,
                    MAX_DEC_ATOMICS == 10_000_000_000_000_000_000_000_000_000_000_000_000u128,
            ;
        }
        let operator = match into_base_decimal(initial_pledge.amount) {
            Ok(d) => d,
            Err(e) => {
                return Err(e);
            },
        };
        Ok(
            MixNodeRewarding {
                cost_params,
                operator,
                delegates: Dec::zero(),
                total_unit_reward: Dec::zero(),
                unit_delegation: unit_delegation_base(),
                last_rewarded_epoch: current_epoch,
                unique_delegations: 0,
            },
        )
    }

    /// Whether the node is still bonded: once the operator withdraws the
    /// last token of the pool the record only remains for delegators who
    /// have not yet removed theirs.
    pub fn still_bonded(&self) -> (r: bool)
        ensures
            r == (self.operator@ != 0),
    {
        !self.operator.is_zero()
    }

    /// Total stake behind the node.
    pub fn node_bond(&self) -> (r: Dec)
        requires
            self.node_bond_spec() <= MAX_DEC_ATOMICS,
        ensures
            r@ == self.node_bond_spec(),
    {
        self.operator.plus(self.delegates)
    }

    /// The current cumulative reward ratio that a delegation settles
    /// against.
    pub fn full_reward_ratio(&self) -> (r: Dec)
        ensures
            r == self.total_unit_reward,
    {
        self.total_unit_reward
    }

    /// The fraction of `amount` that one token of the delegate pool
    /// represents; zero when nothing is delegated.
    pub fn delegator_share(&self, amount: Dec) -> (r: Dec)
        requires
            self.delegates@ > 0 ==> scaled_div(amount@, self.delegates@) <= MAX_DEC_ATOMICS,
        ensures
            self.delegates@ == 0 ==> r@ == 0,
            self.delegates@ > 0 ==> r@ == scaled_div(amount@, self.delegates@),
    {
        proof {
            use_type_invariant(self.delegates);
        }
        if self.delegates.is_zero() {
            Dec::zero()
        } else {
            amount.div_by(self.delegates)
        }
    }

    /// Saturation of the operator's own pledge, capped at one.
    pub open spec fn pledge_saturation_spec(self, params: RewardingParams) -> int {
        if self.operator@ > params.interval.stake_saturation_point@ {
            DEC_FRACTIONAL as int
        } else {
            scaled_div(self.operator@, params.interval.stake_saturation_point@)
        }
    }

    /// Saturation of the whole bond, capped at one.
    pub open spec fn bond_saturation_spec(self, params: RewardingParams) -> int {
        if self.node_bond_spec() > params.interval.stake_saturation_point@ {
            DEC_FRACTIONAL as int
        } else {
            scaled_div(self.node_bond_spec(), params.interval.stake_saturation_point@)
        }
    }

    /// Saturation over the tokens pledged by the node operator, capped at
    /// one so that over-saturation earns no extra reward.
    pub fn pledge_saturation(&self, reward_params: &RewardingParams) -> (r: Dec)
        requires
            reward_params.wf(),
        ensures
            r@ == self.pledge_saturation_spec(*reward_params),
            0 <= r@ <= DEC_FRACTIONAL,
    {
        proof {
            use_type_invariant(self.operator);
            use_type_invariant(reward_params.interval.stake_saturation_point);
        }
        let point = reward_params.interval.stake_saturation_point;
        if point.lt(self.operator) {
            Dec::one()
        } else {
            proof {
                lemma_scaled_div_le_one(self.operator@, point@);
                lemma_scaled_div_nonneg(self.operator@, point@);
            }
            self.operator.div_by(point)
        }
    }

    /// Saturation over all the tokens staked on this node, capped at one.
    pub fn bond_saturation(&self, reward_params: &RewardingParams) -> (r: Dec)
        requires
            reward_params.wf(),
            self.node_bond_spec() <= MAX_DEC_ATOMICS,
        ensures
            r@ == self.bond_saturation_spec(*reward_params),
            0 <= r@ <= DEC_FRACTIONAL,
    {
        proof {
            use_type_invariant(reward_params.interval.stake_saturation_point);
        }
        let bond = self.node_bond();
        let point = reward_params.interval.stake_saturation_point;
        if point.lt(bond) {
            Dec::one()
        } else {
            proof {
                use_type_invariant(bond);
                lemma_scaled_div_le_one(bond@, point@);
                lemma_scaled_div_nonneg(bond@, point@);
            }
            bond.div_by(point)
        }
    }

    /// The node's epoch reward:
    /// `budget * performance * bond_saturation * (work + alpha * pledge_saturation / rewarded_set_size) / (1 + alpha)`.
    ///
    /// `bond_saturation` caps reward growth once the node holds more stake
    /// than the network wants on one node; the `alpha`-weighted
    /// `pledge_saturation` term additionally rewards self-stake, and the
    /// `1 + alpha` denominator keeps the whole a weighted average.
    pub open spec fn node_reward_spec(
        self,
        params: RewardingParams,
        node_params: NodeRewardParams,
    ) -> int {
        let work = if node_params.in_active_set {
            params.active_node_work_spec()
        } else {
            params.standby_node_work_spec()
        };
        let alpha = params.interval.sybil_resistance@;
        let t1 = scaled_mul(params.interval.epoch_reward_budget@, node_params.performance@);
        let t2 = scaled_mul(t1, self.bond_saturation_spec(params));
        let pledge_term = scaled_div(
            scaled_mul(alpha, self.pledge_saturation_spec(params)),
            set_size_atomics(params.rewarded_set_size),
        );
        scaled_div(
            scaled_mul(t2, work + pledge_term),
            (DEC_FRACTIONAL as int) + alpha,
        )
    }

    /// Representability of the one intermediate product of the reward
    /// formula that the other bounds do not already cover.
    pub open spec fn node_reward_fits(
        self,
        params: RewardingParams,
        node_params: NodeRewardParams,
    ) -> bool {
        let work = if node_params.in_active_set {
            params.active_node_work_spec()
        } else {
            params.standby_node_work_spec()
        };
        let alpha = params.interval.sybil_resistance@;
        let t1 = scaled_mul(params.interval.epoch_reward_budget@, node_params.performance@);
        let t2 = scaled_mul(t1, self.bond_saturation_spec(params));
        let pledge_term = scaled_div(
            scaled_mul(alpha, self.pledge_saturation_spec(params)),
            set_size_atomics(params.rewarded_set_size),
        );
        scaled_mul(t2, work + pledge_term) <= MAX_DEC_ATOMICS
    }

    /// Computes the node's reward for one epoch from the global parameters
    /// and the node's own performance and set membership.
    pub fn node_reward(
        &self,
        reward_params: &RewardingParams,
        node_params: NodeRewardParams,
    ) -> (r: Dec)
        requires
            reward_params.wf(),
            self.node_bond_spec() <= MAX_DEC_ATOMICS,
            self.node_reward_fits(*reward_params, node_params),
        ensures
            r@ == self.node_reward_spec(*reward_params, node_params),
    {
        proof {
            reward_params.lemma_work_bounds();
            use_type_invariant(reward_params.interval.epoch_reward_budget);
            use_type_invariant(reward_params.interval.active_set_work_factor);
        }
        let work = if node_params.in_active_set {
            reward_params.active_node_work()
        } else {
            reward_params.standby_node_work()
        };
        let alpha = reward_params.interval.sybil_resistance.value();
        let budget = reward_params.interval.epoch_reward_budget;
        let performance = node_params.performance.value();

        proof {
            use_type_invariant(performance);
            lemma_scaled_mul_le_left(budget@, performance@);
            lemma_scaled_mul_nonneg(budget@, performance@);
        }
        let t1 = budget.times(performance);
        let bond_sat = self.bond_saturation(reward_params);
        proof {
            use_type_invariant(t1);
            lemma_scaled_mul_le_left(t1@, bond_sat@);
            lemma_scaled_mul_nonneg(t1@, bond_sat@);
        }
        let t2 = t1.times(bond_sat);

        let pledge_sat = self.pledge_saturation(reward_params);
        proof {
            use_type_invariant(alpha);
            lemma_scaled_mul_le_left(alpha@, pledge_sat@);
            lemma_scaled_mul_nonneg(alpha@, pledge_sat@);
        }
        let alpha_pledge = alpha.times(pledge_sat);
        let size = reward_params.dec_rewarded_set_size();
        proof {
            assert((DEC_FRACTIONAL as int) <= set_size_atomics(reward_params.rewarded_set_size))
                by (nonlinear_arith)
                requires
                    1 <= reward_params.rewarded_set_size,
                    set_size_atomics(reward_params.rewarded_set_size)
                        == reward_params.rewarded_set_size * (DEC_FRACTIONAL as int),
            ;
            lemma_scaled_div_le_self(alpha_pledge@, size@);
            lemma_scaled_div_nonneg(alpha_pledge@, size@);
        }
        let pledge_term = alpha_pledge.div_by(size);

        let inner = work.plus(pledge_term);
        proof {
            use_type_invariant(t2);
            lemma_scaled_mul_nonneg(t2@, inner@);
        }
        let t3 = t2.times(inner);
        let denominator = Dec::one().plus(alpha);
        proof {
            use_type_invariant(t3);
            lemma_scaled_div_le_self(t3@, denominator@);
            lemma_scaled_div_nonneg(t3@, denominator@);
        }
        t3.div_by(denominator)
    }

    /// The split of one epoch's reward between the operator and the
    /// delegators:
    /// the operator first recovers the epoch's performance-scaled operating
    /// cost, then takes the declared profit margin of the remaining profit
    /// plus the stake-proportional share of the rest; all remaining profit
    /// goes to the delegators. When the reward does not even cover the
    /// cost, the whole (insufficient) reward goes to the operator and the
    /// delegators are insulated from the loss.
    pub open spec fn reward_split_spec(
        self,
        node_reward: int,
        node_performance: int,
        epochs_in_interval: int,
    ) -> (int, int) {
        let node_cost = scaled_mul(
            self.cost_params.epoch_operating_cost_spec(epochs_in_interval),
            node_performance,
        );
        if node_reward > node_cost {
            let profit = node_reward - node_cost;
            let pm = self.cost_params.profit_margin_percent@;
            let operator_share = scaled_div(self.operator@, self.node_bond_spec());
            let operator_take = scaled_mul(
                profit,
                pm + scaled_mul((DEC_FRACTIONAL as int) - pm, operator_share),
            );
            (operator_take + node_cost, profit - operator_take)
        } else {
            (node_reward, 0)
        }
    }

    /// Splits one epoch's reward between the operator and the delegators.
    ///
    /// The two shares always add up exactly to the full node reward: when
    /// the profit is positive, `operator_take + delegates_take + node_cost
    /// == node_reward` holds in exact decimal arithmetic.
    pub fn determine_reward_split(
        &self,
        node_reward: Dec,
        node_performance: Percent,
        epochs_in_interval: u32,
    ) -> (r: RewardDistribution)
        requires
            1 <= epochs_in_interval,
            self.cost_params.epoch_operating_cost_spec(epochs_in_interval as int)
                <= MAX_DEC_ATOMICS,
            self.node_bond_spec() <= MAX_DEC_ATOMICS,
            node_reward@ > scaled_mul(
                self.cost_params.epoch_operating_cost_spec(epochs_in_interval as int),
                node_performance@,
            ) ==> self.node_bond_spec() > 0,
        ensures
            (r.operator@, r.delegates@) == self.reward_split_spec(
                node_reward@,
                node_performance@,
                epochs_in_interval as int,
            ),
            r.operator@ + r.delegates@ == node_reward@,
    {
        let epoch_cost = self.cost_params.epoch_operating_cost(epochs_in_interval);
        let performance = node_performance.value();
        proof {
            use_type_invariant(epoch_cost);
            use_type_invariant(performance);
            lemma_scaled_mul_le_left(epoch_cost@, performance@);
            lemma_scaled_mul_nonneg(epoch_cost@, performance@);
        }
        let node_cost = epoch_cost.times(performance);

        if node_cost.lt(node_reward) {
            proof {
                use_type_invariant(node_reward);
            }
            let profit = node_reward.minus(node_cost);
            let profit_margin = self.cost_params.profit_margin_percent.value();
            let one = Dec::one();

            let bond = self.node_bond();
            proof {
                use_type_invariant(self.delegates);
                use_type_invariant(self.operator);
                lemma_scaled_div_le_one(self.operator@, bond@);
                lemma_scaled_div_nonneg(self.operator@, bond@);
            }
            let operator_share = self.operator.div_by(bond);

            proof {
                use_type_invariant(profit_margin);
                lemma_scaled_mul_le_left(one@ - profit_margin@, operator_share@);
                lemma_scaled_mul_nonneg(one@ - profit_margin@, operator_share@);
            }
            let margin_complement = one.minus(profit_margin).times(operator_share);
            let weight = profit_margin.plus(margin_complement);
            proof {
                use_type_invariant(profit);
                lemma_scaled_mul_le_left(profit@, weight@);
                lemma_scaled_mul_nonneg(profit@, weight@);
            }
            let operator = profit.times(weight);
            let delegates = profit.minus(operator);

            RewardDistribution { operator: operator.plus(node_cost), delegates }
        } else {
            RewardDistribution { operator: node_reward, delegates: Dec::zero() }
        }
    }

    /// Computes the epoch reward and splits it, in one step.
    pub fn calculate_epoch_reward(
        &self,
        reward_params: &RewardingParams,
        node_params: NodeRewardParams,
        epochs_in_interval: u32,
    ) -> (r: RewardDistribution)
        requires
            reward_params.wf(),
            self.node_bond_spec() <= MAX_DEC_ATOMICS,
            self.node_reward_fits(*reward_params, node_params),
            1 <= epochs_in_interval,
            self.cost_params.epoch_operating_cost_spec(epochs_in_interval as int)
                <= MAX_DEC_ATOMICS,
            self.node_reward_spec(*reward_params, node_params) > scaled_mul(
                self.cost_params.epoch_operating_cost_spec(epochs_in_interval as int),
                node_params.performance@,
            ) ==> self.node_bond_spec() > 0,
        ensures
            (r.operator@, r.delegates@) == self.reward_split_spec(
                self.node_reward_spec(*reward_params, node_params),
                node_params.performance@,
                epochs_in_interval as int,
            ),
            r.operator@ + r.delegates@ == self.node_reward_spec(*reward_params, node_params),
    {
        let node_reward = self.node_reward(reward_params, node_params);
        self.determine_reward_split(node_reward, node_params.performance, epochs_in_interval)
    }

    /// The current value, per unit of delegated stake, of the hypothetical
    /// unit delegation placed at genesis: what one settlement distributes
    /// to it per token of `delegates`. Meaningful only when `delegates` is
    /// positive.
    pub open spec fn unit_reward_share_spec(self) -> int {
        scaled_div(self.unit_delegation@ + self.total_unit_reward@, self.delegates@)
    }

    /// By how much one settlement advances the cumulative unit reward when
    /// the delegators collectively receive `delegates_take`: their take
    /// scaled down to the unit delegation. Zero when nothing is delegated.
    pub open spec fn unit_reward_increment_spec(self, delegates_take: int) -> int {
        if self.delegates@ == 0 {
            0
        } else {
            scaled_mul(delegates_take, self.unit_reward_share_spec())
        }
    }

    /// Representability of the sums and quotients formed when distributing
    /// a reward of `(operator_take, delegates_take)` to this record.
    pub open spec fn distribute_fits(self, operator_take: int, delegates_take: int) -> bool {
        &&& self.unit_delegation@ + self.total_unit_reward@ + self.unit_reward_increment_spec(
            delegates_take,
        ) <= MAX_DEC_ATOMICS
        &&& (self.delegates@ > 0 ==> self.unit_reward_share_spec() <= MAX_DEC_ATOMICS)
        &&& self.operator@ + operator_take + self.delegates@ + delegates_take
            <= MAX_DEC_ATOMICS
    }

    /// Applies one epoch's reward split to the record: the pools grow by
    /// their shares and the cumulative unit reward advances, so that every
    /// delegation can later settle lazily against the new ratio. No
    /// per-delegation state is touched — this is the O(1) amortized
    /// accounting that makes settlement independent of the delegator count.
    ///
    /// The caller must invoke settlement at most once per epoch, in epoch
    /// order.
    pub fn distribute_rewards(
        &mut self,
        distribution: RewardDistribution,
        absolute_epoch_id: EpochId,
    )
        requires
            old(self).wf(),
            old(self).distribute_fits(distribution.operator@, distribution.delegates@),
            old(self).unique_delegations == 0 ==> distribution.delegates@ == 0,
            old(self).last_rewarded_epoch < absolute_epoch_id,
        ensures
            final(self).operator@ == old(self).operator@ + distribution.operator@,
            final(self).delegates@ == old(self).delegates@ + distribution.delegates@,
            final(self).total_unit_reward@ == old(self).total_unit_reward@ + old(self).unit_reward_increment_spec(distribution.delegates@),
            old(self).total_unit_reward@ <= final(self).total_unit_reward@,
            final(self).unit_delegation == old(self).unit_delegation,
            final(self).cost_params == old(self).cost_params,
            final(self).unique_delegations == old(self).unique_delegations,
            final(self).last_rewarded_epoch == absolute_epoch_id,
            final(self).wf(),
    {
        proof {
            use_type_invariant(self.unit_delegation);
            use_type_invariant(self.total_unit_reward);
            use_type_invariant(self.operator);
            use_type_invariant(self.delegates);
            use_type_invariant(distribution.operator);
            use_type_invariant(distribution.delegates);
            if old(self).delegates@ > 0 {
                lemma_scaled_div_nonneg(
                    old(self).unit_delegation@ + old(self).total_unit_reward@,
                    old(self).delegates@,
                );
                lemma_scaled_mul_nonneg(
                    distribution.delegates@,
                    old(self).unit_reward_share_spec(),
                );
            }
        }
        let adjusted_unit = self.unit_delegation.plus(self.total_unit_reward);
        let share = self.delegator_share(adjusted_unit);
        let unit_delegation_reward = distribution.delegates.times(share);

        self.operator = self.operator.plus(distribution.operator);
        self.delegates = self.delegates.plus(distribution.delegates);
        self.total_unit_reward = self.total_unit_reward.plus(unit_delegation_reward);
        self.last_rewarded_epoch = absolute_epoch_id;
    }

    /// When the node has no delegations, the reward split never assigns
    /// the delegators anything: the whole profit-weighting collapses to
    /// exactly one.
    pub proof fn lemma_split_without_delegates(
        self,
        node_reward: int,
        node_performance: int,
        epochs_in_interval: int,
    )
        requires
            self.delegates@ == 0,
            0 <= self.operator@,
            node_reward > scaled_mul(
                self.cost_params.epoch_operating_cost_spec(epochs_in_interval),
                node_performance,
            ) ==> self.node_bond_spec() > 0,
        ensures
            self.reward_split_spec(node_reward, node_performance, epochs_in_interval).1 == 0,
    {
        let node_cost = scaled_mul(
            self.cost_params.epoch_operating_cost_spec(epochs_in_interval),
            node_performance,
        );
        if node_reward > node_cost {
            let profit = node_reward - node_cost;
            let pm = self.cost_params.profit_margin_percent@;
            crate::decimal::lemma_scaled_div_identity(self.operator@);
            assert(scaled_div(self.operator@, self.node_bond_spec()) == DEC_FRACTIONAL);
            crate::decimal::lemma_scaled_mul_identity((DEC_FRACTIONAL as int) - pm);
            crate::decimal::lemma_scaled_mul_identity(profit);
        }
    }

    /// Computes and applies one epoch's reward in a single step.
    pub fn epoch_rewarding(
        &mut self,
        reward_params: &RewardingParams,
        node_params: NodeRewardParams,
        epochs_in_interval: u32,
        absolute_epoch_id: EpochId,
    )
        requires
            old(self).wf(),
            reward_params.wf(),
            old(self).node_reward_fits(*reward_params, node_params),
            1 <= epochs_in_interval,
            old(self).cost_params.epoch_operating_cost_spec(epochs_in_interval as int)
                <= MAX_DEC_ATOMICS,
            old(self).node_reward_spec(*reward_params, node_params) > scaled_mul(
                old(self).cost_params.epoch_operating_cost_spec(epochs_in_interval as int),
                node_params.performance@,
            ) ==> old(self).node_bond_spec() > 0,
            old(self).distribute_fits(
                old(self).reward_split_spec(
                    old(self).node_reward_spec(*reward_params, node_params),
                    node_params.performance@,
                    epochs_in_interval as int,
                ).0,
                old(self).reward_split_spec(
                    old(self).node_reward_spec(*reward_params, node_params),
                    node_params.performance@,
                    epochs_in_interval as int,
                ).1,
            ),
            old(self).last_rewarded_epoch < absolute_epoch_id,
        ensures
            ({
                let split = old(self).reward_split_spec(
                    old(self).node_reward_spec(*reward_params, node_params),
                    node_params.performance@,
                    epochs_in_interval as int,
                );
                &&& final(self).operator@ == old(self).operator@ + split.0
                &&& final(self).delegates@ == old(self).delegates@ + split.1
                &&& final(self).total_unit_reward@ == old(self).total_unit_reward@ + old(self).unit_reward_increment_spec(split.1)
                &&& old(self).total_unit_reward@ <= final(self).total_unit_reward@
                &&& final(self).unit_delegation == old(self).unit_delegation
                &&& final(self).cost_params == old(self).cost_params
                &&& final(self).unique_delegations == old(self).unique_delegations
                &&& final(self).last_rewarded_epoch == absolute_epoch_id
                &&& final(self).operator@ + final(self).delegates@ == old(self).operator@
                    + old(self).delegates@ + old(self).node_reward_spec(
                    *reward_params,
                    node_params,
                )
                &&& final(self).wf()
            }),
    {
        proof {
            crate::laws::lemma_reward_split_conserves_value(
                *old(self),
                old(self).node_reward_spec(*reward_params, node_params),
                node_params.performance@,
                epochs_in_interval as int,
            );
        }
        let reward_distribution = self.calculate_epoch_reward(
            reward_params,
            node_params,
            epochs_in_interval,
        );
        proof {
            if self.unique_delegations == 0 {
                use_type_invariant(self.operator);
                self.lemma_split_without_delegates(
                    self.node_reward_spec(*reward_params, node_params),
                    node_params.performance@,
                    epochs_in_interval as int,
                );
            }
        }
        self.distribute_rewards(reward_distribution, absolute_epoch_id)
    }

    /// The reward a delegation has accrued and not yet realised: the
    /// advance of the cumulative unit reward since the delegation's
    /// snapshot, scaled from the unit delegation down to the delegation's
    /// own principal.
    pub open spec fn pending_reward_spec(self, delegation: Delegation) -> int {
        scaled_div(
            scaled_mul(
                self.total_unit_reward@ - delegation.cumulative_reward_ratio@,
                delegation.amount.amount * (DEC_FRACTIONAL as int),
            ),
            delegation.cumulative_reward_ratio@ + self.unit_delegation@,
        )
    }

    /// Representability of the product formed when computing a pending
    /// delegation reward.
    pub open spec fn pending_reward_fits(self, delegation: Delegation) -> bool {
        delegation.amount.amount * DEC_FRACTIONAL <= MAX_DEC_ATOMICS ==> scaled_mul(
            self.total_unit_reward@ - delegation.cumulative_reward_ratio@,
            delegation.amount.amount * (DEC_FRACTIONAL as int),
        ) <= MAX_DEC_ATOMICS
    }

    /// Computes the delegation's pending reward, purely from the current
    /// ratio and the delegation's snapshot: no state is touched.
    pub fn determine_delegation_reward(&self, delegation: &Delegation) -> (r: Result<
        Dec,
        MixnetContractError,
    >)
        requires
            self.wf(),
            delegation.cumulative_reward_ratio@ <= self.total_unit_reward@,
            self.pending_reward_fits(*delegation),
        ensures
            delegation.amount.amount * DEC_FRACTIONAL <= MAX_DEC_ATOMICS ==> r.is_ok()
                && r.unwrap()@ == self.pending_reward_spec(*delegation),
            delegation.amount.amount * DEC_FRACTIONAL > MAX_DEC_ATOMICS ==> r
                == Err::<Dec, MixnetContractError>(
                MixnetContractError::DecimalRangeExceeded { amount: delegation.amount.amount },
            ),
    {
        let starting_ratio = delegation.cumulative_reward_ratio;
        let ending_ratio = self.full_reward_ratio();
        proof {
            use_type_invariant(starting_ratio);
            use_type_invariant(self.unit_delegation);
        }
        let adjust = starting_ratio.plus(self.unit_delegation);
        let amount_dec = match delegation.dec_amount() {
            Ok(d) => d,
            Err(e) => {
                return Err(e);
            },
        };
        let diff = ending_ratio.minus(starting_ratio);
        let scaled = diff.times(amount_dec);
        proof {
            use_type_invariant(scaled);
            lemma_scaled_div_le_self(scaled@, adjust@);
            lemma_scaled_div_nonneg(scaled@, adjust@);
        }
        Ok(scaled.div_by(adjust))
    }

    /// The two records agree on the cost function, the reward ratio
    /// bookkeeping and the settlement epoch; only pools and the delegation
    /// count may differ.
    pub open spec fn same_bookkeeping(self, other: Self) -> bool {
        &&& self.cost_params == other.cost_params
        &&& self.total_unit_reward == other.total_unit_reward
        &&& self.unit_delegation == other.unit_delegation
        &&& self.last_rewarded_epoch == other.last_rewarded_epoch
    }

    /// The delegation's pending reward, truncated into transferable coins
    /// of the delegation's own denomination. Read-only.
    pub fn pending_delegator_reward(&self, delegation: &Delegation) -> (r: Result<
        Coin,
        MixnetContractError,
    >)
        requires
            self.wf(),
            delegation.cumulative_reward_ratio@ <= self.total_unit_reward@,
            self.pending_reward_fits(*delegation),
        ensures
            delegation.amount.amount * DEC_FRACTIONAL <= MAX_DEC_ATOMICS ==> r.is_ok()
                && r.unwrap().amount == self.pending_reward_spec(*delegation) / (
            DEC_FRACTIONAL as int) && r.unwrap().denom@ == delegation.amount.denom@,
            delegation.amount.amount * DEC_FRACTIONAL > MAX_DEC_ATOMICS ==> r
                == Err::<Coin, MixnetContractError>(
                MixnetContractError::DecimalRangeExceeded { amount: delegation.amount.amount },
            ),
    {
        let delegator_reward = match self.determine_delegation_reward(delegation) {
            Ok(d) => d,
            Err(e) => {
                return Err(e);
            },
        };
        Ok(truncate_reward(delegator_reward, delegation.amount.denom.as_str()))
    }

    /// Realises the delegation's pending reward: the delegate pool shrinks
    /// by the exact pending amount, the delegation's snapshot advances to
    /// the current ratio, and the truncated reward is paid out. The
    /// principal stays in place.
    pub fn withdraw_delegator_reward(
        &mut self,
        delegation: &mut Delegation,
    ) -> (r: Result<Coin, MixnetContractError>)
        requires
            old(self).wf(),
            old(delegation).cumulative_reward_ratio@ <= old(self).total_unit_reward@,
            old(self).pending_reward_fits(*old(delegation)),
        ensures
            old(delegation).amount.amount * DEC_FRACTIONAL > MAX_DEC_ATOMICS ==> r
                == Err::<Coin, MixnetContractError>(
                MixnetContractError::DecimalRangeExceeded {
                    amount: old(delegation).amount.amount,
                },
            ) && *final(self) == *old(self) && *final(delegation) == *old(delegation),
            ({
                let pending = old(self).pending_reward_spec(*old(delegation));
                &&& (old(delegation).amount.amount * DEC_FRACTIONAL <= MAX_DEC_ATOMICS && old(self).delegates@ < pending ==> (r matches Err(
                    MixnetContractError::OverflowDecimalSubtraction { minuend, subtrahend },
                ) && minuend == old(self).delegates && subtrahend@ == pending) && *final(self)
                    == *old(self) && *final(delegation) == *old(delegation))
                &&& (old(delegation).amount.amount * DEC_FRACTIONAL <= MAX_DEC_ATOMICS
                    && pending <= old(self).delegates@ ==> r.is_ok() && r.unwrap().amount
                    == pending / (DEC_FRACTIONAL as int) && r.unwrap().denom@ == old(delegation).amount.denom@ && final(self).same_bookkeeping(*old(self)) && final(self).operator == old(self).operator && final(self).unique_delegations == old(self).unique_delegations && final(self).delegates@ == old(self).delegates@ - pending
                    && final(delegation).cumulative_reward_ratio == old(self).total_unit_reward
                    && final(delegation).owner == old(delegation).owner && final(delegation).mix_id == old(delegation).mix_id && final(delegation).amount == old(delegation).amount && final(delegation).height == old(delegation).height && final(self).wf())
            }),
    {
        let reward = match self.determine_delegation_reward(delegation) {
            Ok(d) => d,
            Err(e) => {
                return Err(e);
            },
        };
        match self.decrease_delegates_decimal(reward) {
            Ok(()) => {},
            Err(e) => {
                return Err(e);
            },
        }
        delegation.cumulative_reward_ratio = self.full_reward_ratio();
        Ok(truncate_reward(reward, delegation.amount.denom.as_str()))
    }

    /// The operator's accumulated reward, truncated into transferable
    /// coins: everything in the operator pool beyond the original pledge.
    pub fn pending_operator_reward(&self, original_pledge: &Coin) -> (r: Coin)
        requires
            original_pledge.amount <= self.operator@ / (DEC_FRACTIONAL as int),
        ensures
            r.amount == self.operator@ / (DEC_FRACTIONAL as int) - original_pledge.amount,
            r.denom@ == original_pledge.denom@,
    {
        let reward_with_pledge = truncate_reward(self.operator, original_pledge.denom.as_str());
        Coin {
            denom: reward_with_pledge.denom,
            amount: reward_with_pledge.amount - original_pledge.amount,
        }
    }

    /// The operator's accumulated reward at full decimal precision.
    ///
    /// An operator pool below the original pledge would mean the pledge was
    /// slashed, which is not implemented: that case is reported as the
    /// fatal [`MixnetContractError::OperatorPoolBelowPledge`] defect rather
    /// than a caller-correctable rejection.
    pub fn pending_detailed_operator_reward(&self, original_pledge: &Coin) -> (r: Result<
        Dec,
        MixnetContractError,
    >)
        ensures
            original_pledge.amount * DEC_FRACTIONAL > MAX_DEC_ATOMICS ==> r
                == Err::<Dec, MixnetContractError>(
                MixnetContractError::DecimalRangeExceeded { amount: original_pledge.amount },
            ),
            original_pledge.amount * DEC_FRACTIONAL <= MAX_DEC_ATOMICS && self.operator@
                < original_pledge.amount * DEC_FRACTIONAL ==> (r matches Err(
                MixnetContractError::OperatorPoolBelowPledge { operator, pledge },
            ) && operator == self.operator && pledge@ == original_pledge.amount
                * DEC_FRACTIONAL),
            original_pledge.amount * DEC_FRACTIONAL <= self.operator@ ==> r.is_ok()
                && r.unwrap()@ == self.operator@ - original_pledge.amount * DEC_FRACTIONAL,
    {
        proof {
            use_type_invariant(self.operator);
        }
        let initial_dec = match into_base_decimal(original_pledge.amount) {
            Ok(d) => d,
            Err(e) => {
                return Err(e);
            },
        };
        if self.operator.lt(initial_dec) {
            return Err(
                MixnetContractError::OperatorPoolBelowPledge {
                    operator: self.operator,
                    pledge: initial_dec,
                },
            );
        }
        Ok(self.operator.minus(initial_dec))
    }

    /// The whole operator pool — pledge and accumulated reward together —
    /// truncated into transferable coins.
    pub fn operator_pledge_with_reward(&self, denom: &str) -> (r: Coin)
        ensures
            r.amount == self.operator@ / (DEC_FRACTIONAL as int),
            r.denom@ == denom@,
    {
        truncate_reward(self.operator, denom)
    }

    /// Flushes the operator's accumulated reward out of the pool: the pool
    /// is reset to exactly the original pledge and the difference is paid
    /// out, truncated. Fails with the fatal
    /// [`MixnetContractError::OperatorPoolBelowPledge`] defect when the
    /// pool holds less than the pledge.
    pub fn withdraw_operator_reward(&mut self, original_pledge: &Coin) -> (r: Result<
        Coin,
        MixnetContractError,
    >)
        ensures
            original_pledge.amount * DEC_FRACTIONAL > MAX_DEC_ATOMICS ==> r
                == Err::<Coin, MixnetContractError>(
                MixnetContractError::DecimalRangeExceeded { amount: original_pledge.amount },
            ) && *final(self) == *old(self),
            original_pledge.amount * DEC_FRACTIONAL <= MAX_DEC_ATOMICS && old(self).operator@
                < original_pledge.amount * DEC_FRACTIONAL ==> (r matches Err(
                MixnetContractError::OperatorPoolBelowPledge { operator, pledge },
            ) && operator == old(self).operator && pledge@ == original_pledge.amount
                * DEC_FRACTIONAL) && *final(self) == *old(self),
            original_pledge.amount * DEC_FRACTIONAL <= old(self).operator@ ==> r.is_ok()
                && r.unwrap().amount == (old(self).operator@ - original_pledge.amount
                * DEC_FRACTIONAL) / (DEC_FRACTIONAL as int) && r.unwrap().denom@
                == original_pledge.denom@ && final(self).operator@ == original_pledge.amount
                * DEC_FRACTIONAL && final(self).delegates == old(self).delegates && final(self).unique_delegations == old(self).unique_delegations && final(self).same_bookkeeping(*old(self)) && (old(self).wf() ==> final(self).wf()),
    {
        proof {
            use_type_invariant(self.operator);
        }
        let initial_dec = match into_base_decimal(original_pledge.amount) {
            Ok(d) => d,
            Err(e) => {
                return Err(e);
            },
        };
        if self.operator.lt(initial_dec) {
            return Err(
                MixnetContractError::OperatorPoolBelowPledge {
                    operator: self.operator,
                    pledge: initial_dec,
                },
            );
        }
        proof {
            use_type_invariant(initial_dec);
        }
        let diff = self.operator.minus(initial_dec);
        self.operator = initial_dec;

        Ok(truncate_reward(diff, original_pledge.denom.as_str()))
    }

    /// Registers a fresh delegation: the delegate pool grows by the
    /// delegated amount and the delegation count by one.
    pub fn add_base_delegation(&mut self, amount: u128) -> (r: Result<(), MixnetContractError>)
        requires
            amount * DEC_FRACTIONAL <= MAX_DEC_ATOMICS ==> old(self).node_bond_spec() + amount
                * DEC_FRACTIONAL <= MAX_DEC_ATOMICS,
            old(self).unique_delegations < u32::MAX,
        ensures
            amount * DEC_FRACTIONAL > MAX_DEC_ATOMICS ==> r == Err::<(), MixnetContractError>(
                MixnetContractError::DecimalRangeExceeded { amount },
            ) && *final(self) == *old(self),
            amount * DEC_FRACTIONAL <= MAX_DEC_ATOMICS ==> r.is_ok() && final(self).delegates@
                == old(self).delegates@ + amount * DEC_FRACTIONAL && final(self).unique_delegations == old(self).unique_delegations + 1 && final(self).operator
                == old(self).operator && final(self).same_bookkeeping(*old(self)) && (old(self).wf() ==> final(self).wf()),
    {
        match self.increase_delegates_uint128(amount) {
            Ok(()) => {},
            Err(e) => {
                return Err(e);
            },
        }
        self.unique_delegations = self.unique_delegations + 1;
        Ok(())
    }

    /// Grows the operator pool by an integer token amount.
    pub fn increase_operator_uint128(&mut self, amount: u128) -> (r: Result<
        (),
        MixnetContractError,
    >)
        requires
            amount * DEC_FRACTIONAL <= MAX_DEC_ATOMICS ==> old(self).node_bond_spec() + amount
                * DEC_FRACTIONAL <= MAX_DEC_ATOMICS,
        ensures
            amount * DEC_FRACTIONAL > MAX_DEC_ATOMICS ==> r == Err::<(), MixnetContractError>(
                MixnetContractError::DecimalRangeExceeded { amount },
            ) && *final(self) == *old(self),
            amount * DEC_FRACTIONAL <= MAX_DEC_ATOMICS ==> r.is_ok() && final(self).operator@
                == old(self).operator@ + amount * DEC_FRACTIONAL && final(self).delegates
                == old(self).delegates && final(self).unique_delegations == old(self).unique_delegations && final(self).same_bookkeeping(*old(self)) && (old(self).wf()
                ==> final(self).wf()),
    {
        let amount_dec = match into_base_decimal(amount) {
            Ok(d) => d,
            Err(e) => {
                return Err(e);
            },
        };
        proof {
            use_type_invariant(self.delegates);
        }
        self.operator = self.operator.plus(amount_dec);
        Ok(())
    }

    /// Shrinks the operator pool by an integer token amount; rejects the
    /// request when the pool does not hold that much.
    pub fn decrease_operator_uint128(&mut self, amount: u128) -> (r: Result<
        (),
        MixnetContractError,
    >)
        ensures
            amount * DEC_FRACTIONAL > MAX_DEC_ATOMICS ==> r == Err::<(), MixnetContractError>(
                MixnetContractError::DecimalRangeExceeded { amount },
            ) && *final(self) == *old(self),
            amount * DEC_FRACTIONAL <= MAX_DEC_ATOMICS && old(self).operator@ < amount
                * DEC_FRACTIONAL ==> (r matches Err(
                MixnetContractError::OverflowDecimalSubtraction { minuend, subtrahend },
            ) && minuend == old(self).operator && subtrahend@ == amount * DEC_FRACTIONAL)
                && *final(self) == *old(self),
            amount * DEC_FRACTIONAL <= old(self).operator@ ==> r.is_ok() && final(self).operator@ == old(self).operator@ - amount * DEC_FRACTIONAL && final(self).delegates == old(self).delegates && final(self).unique_delegations == old(self).unique_delegations && final(self).same_bookkeeping(*old(self)) && (old(self).wf()
                ==> final(self).wf()),
    {
        proof {
            use_type_invariant(self.operator);
        }
        let amount_decimal = match into_base_decimal(amount) {
            Ok(d) => d,
            Err(e) => {
                return Err(e);
            },
        };
        if self.operator.lt(amount_decimal) {
            return Err(
                MixnetContractError::OverflowDecimalSubtraction {
                    minuend: self.operator,
                    subtrahend: amount_decimal,
                },
            );
        }
        self.operator = self.operator.minus(amount_decimal);
        Ok(())
    }

    /// Grows the delegate pool by an integer token amount, without touching
    /// the delegation count.
    pub fn increase_delegates_uint128(&mut self, amount: u128) -> (r: Result<
        (),
        MixnetContractError,
    >)
        requires
            amount * DEC_FRACTIONAL <= MAX_DEC_ATOMICS ==> old(self).node_bond_spec() + amount
                * DEC_FRACTIONAL <= MAX_DEC_ATOMICS,
        ensures
            amount * DEC_FRACTIONAL > MAX_DEC_ATOMICS ==> r == Err::<(), MixnetContractError>(
                MixnetContractError::DecimalRangeExceeded { amount },
            ) && *final(self) == *old(self),
            amount * DEC_FRACTIONAL <= MAX_DEC_ATOMICS ==> r.is_ok() && final(self).delegates@
                == old(self).delegates@ + amount * DEC_FRACTIONAL && final(self).operator
                == old(self).operator && final(self).unique_delegations == old(self).unique_delegations && final(self).same_bookkeeping(*old(self)),
    {
        let amount_dec = match into_base_decimal(amount) {
            Ok(d) => d,
            Err(e) => {
                return Err(e);
            },
        };
        proof {
            use_type_invariant(self.operator);
        }
        self.delegates = self.delegates.plus(amount_dec);
        Ok(())
    }

    /// Shrinks the delegate pool by an integer token amount; rejects the
    /// request when the pool does not hold that much.
    pub fn decrease_delegates_uint128(&mut self, amount: u128) -> (r: Result<
        (),
        MixnetContractError,
    >)
        ensures
            amount * DEC_FRACTIONAL > MAX_DEC_ATOMICS ==> r == Err::<(), MixnetContractError>(
                MixnetContractError::DecimalRangeExceeded { amount },
            ) && *final(self) == *old(self),
            amount * DEC_FRACTIONAL <= MAX_DEC_ATOMICS && old(self).delegates@ < amount
                * DEC_FRACTIONAL ==> (r matches Err(
                MixnetContractError::OverflowDecimalSubtraction { minuend, subtrahend },
            ) && minuend == old(self).delegates && subtrahend@ == amount * DEC_FRACTIONAL)
                && *final(self) == *old(self),
            amount * DEC_FRACTIONAL <= old(self).delegates@ ==> r.is_ok() && final(self).delegates@ == old(self).delegates@ - amount * DEC_FRACTIONAL && final(self).operator == old(self).operator && final(self).unique_delegations == old(self).unique_delegations && final(self).same_bookkeeping(*old(self)) && (old(self).wf()
                ==> final(self).wf()),
    {
        proof {
            use_type_invariant(self.delegates);
        }
        let amount_dec = match into_base_decimal(amount) {
            Ok(d) => d,
            Err(e) => {
                return Err(e);
            },
        };
        self.decrease_delegates_decimal(amount_dec)
    }

    /// Removes a delegation given as an integer token amount. Only valid
    /// when the delegation has not accumulated any rewards, since the
    /// amount removed is exactly what was delegated.
    pub fn remove_delegation_uint128(&mut self, amount: u128) -> (r: Result<
        (),
        MixnetContractError,
    >)
        requires
            old(self).wf(),
        ensures
            amount * DEC_FRACTIONAL > MAX_DEC_ATOMICS ==> r == Err::<(), MixnetContractError>(
                MixnetContractError::DecimalRangeExceeded { amount },
            ) && *final(self) == *old(self),
            amount * DEC_FRACTIONAL <= MAX_DEC_ATOMICS && old(self).delegates@ < amount
                * DEC_FRACTIONAL ==> (r matches Err(
                MixnetContractError::OverflowDecimalSubtraction { minuend, subtrahend },
            ) && minuend == old(self).delegates && subtrahend@ == amount * DEC_FRACTIONAL)
                && *final(self) == *old(self),
            amount * DEC_FRACTIONAL <= old(self).delegates@ && old(self).unique_delegations
                == 0 ==> r == Err::<(), MixnetContractError>(
                MixnetContractError::OverflowSubtraction { minuend: 0, subtrahend: 1 },
            ) && *final(self) == *old(self),
            amount * DEC_FRACTIONAL <= old(self).delegates@ && old(self).unique_delegations
                >= 1 ==> r.is_ok() && final(self).same_bookkeeping(*old(self)) && final(self).unique_delegations == old(self).unique_delegations - 1 && final(self).delegates@
                == old(self).delegates@ - amount * DEC_FRACTIONAL && final(self).operator
                == old(self).operator && (old(self).unique_delegations >= 2 || amount
                * DEC_FRACTIONAL == old(self).delegates@ ==> final(self).wf()),
    {
        proof {
            use_type_invariant(self.delegates);
        }
        let amount_dec = match into_base_decimal(amount) {
            Ok(d) => d,
            Err(e) => {
                return Err(e);
            },
        };
        match self.decrease_delegates_decimal(amount_dec) {
            Ok(()) => {},
            Err(e) => {
                return Err(e);
            },
        }
        match self.decrement_unique_delegations() {
            Ok(()) => Ok(()),
            Err(e) => {
                proof {
                    crate::decimal::lemma_dec_view_injective(
                        self.delegates,
                        old(self).delegates,
                    );
                }
                Err(e)
            },
        }
    }

    /// Takes one delegation out of the count; rejects the request when no
    /// delegation is registered.
    fn decrement_unique_delegations(&mut self) -> (r: Result<(), MixnetContractError>)
        ensures
            old(self).unique_delegations == 0 ==> r == Err::<(), MixnetContractError>(
                MixnetContractError::OverflowSubtraction { minuend: 0, subtrahend: 1 },
            ) && *final(self) == *old(self),
            old(self).unique_delegations >= 1 ==> r.is_ok() && final(self).unique_delegations
                == old(self).unique_delegations - 1 && final(self).operator == old(self).operator && final(self).delegates == old(self).delegates && final(self).same_bookkeeping(*old(self)),
    {
        if self.unique_delegations == 0 {
            return Err(MixnetContractError::OverflowSubtraction { minuend: 0, subtrahend: 1 });
        }
        self.unique_delegations = self.unique_delegations - 1;
        Ok(())
    }

    /// Removes a delegation of the given decimal size: the delegate pool
    /// shrinks by it and the delegation count by one. When this was the
    /// last delegation, whatever decimal dust is left in the delegate pool
    /// — truncation residue of many small operations — is swept into the
    /// operator pool, so no value is ever stranded; `delegates` then ends
    /// at exactly zero.
    pub fn remove_delegation_decimal(&mut self, amount: Dec) -> (r: Result<
        (),
        MixnetContractError,
    >)
        requires
            old(self).wf(),
        ensures
            old(self).delegates@ < amount@ ==> r == Err::<(), MixnetContractError>(
                MixnetContractError::OverflowDecimalSubtraction {
                    minuend: old(self).delegates,
                    subtrahend: amount,
                },
            ) && *final(self) == *old(self),
            amount@ <= old(self).delegates@ && old(self).unique_delegations == 0 ==> r
                == Err::<(), MixnetContractError>(
                MixnetContractError::OverflowSubtraction { minuend: 0, subtrahend: 1 },
            ) && *final(self) == *old(self),
            amount@ <= old(self).delegates@ && old(self).unique_delegations >= 1 ==> r.is_ok()
                && final(self).same_bookkeeping(*old(self)) && final(self).unique_delegations
                == old(self).unique_delegations - 1 && (old(self).unique_delegations == 1
                ==> final(self).delegates@ == 0 && final(self).operator@ == old(self).operator@
                + old(self).delegates@ - amount@) && (old(self).unique_delegations > 1
                ==> final(self).delegates@ == old(self).delegates@ - amount@ && final(self).operator == old(self).operator) && final(self).wf(),
    {
        proof {
            use_type_invariant(amount);
        }
        match self.decrease_delegates_decimal(amount) {
            Ok(()) => {},
            Err(e) => {
                return Err(e);
            },
        }
        match self.decrement_unique_delegations() {
            Ok(()) => {},
            Err(e) => {
                proof {
                    crate::decimal::lemma_dec_view_injective(
                        self.delegates,
                        old(self).delegates,
                    );
                }
                return Err(e);
            },
        }

        // last delegation removed: sweep the leftover decimal dust into the
        // operator pool
        if self.unique_delegations == 0 {
            proof {
                use_type_invariant(self.operator);
                use_type_invariant(self.delegates);
            }
            self.operator = self.operator.plus(self.delegates);
            self.delegates = Dec::zero();
        }
        Ok(())
    }

    /// The composite "claim and exit" operation: computes the delegation's
    /// pending reward, removes reward and principal together from the
    /// delegate pool, and pays out the combined amount truncated to the
    /// delegation's denomination. Either the full payout is returned and
    /// the state updated consistently, or nothing changes.
    pub fn undelegate(&mut self, delegation: &Delegation) -> (r: Result<
        Coin,
        MixnetContractError,
    >)
        requires
            old(self).wf(),
            delegation.cumulative_reward_ratio@ <= old(self).total_unit_reward@,
            old(self).pending_reward_fits(*delegation),
            delegation.amount.amount * DEC_FRACTIONAL <= MAX_DEC_ATOMICS ==> old(self).pending_reward_spec(*delegation) + delegation.amount.amount * DEC_FRACTIONAL
                <= MAX_DEC_ATOMICS,
        ensures
            delegation.amount.amount * DEC_FRACTIONAL > MAX_DEC_ATOMICS ==> r
                == Err::<Coin, MixnetContractError>(
                MixnetContractError::DecimalRangeExceeded { amount: delegation.amount.amount },
            ) && *final(self) == *old(self),
            ({
                let full = old(self).pending_reward_spec(*delegation) + delegation.amount.amount
                    * DEC_FRACTIONAL;
                &&& (delegation.amount.amount * DEC_FRACTIONAL <= MAX_DEC_ATOMICS && old(self).delegates@ < full ==> (r matches Err(
                    MixnetContractError::OverflowDecimalSubtraction { minuend, subtrahend },
                ) && minuend == old(self).delegates && subtrahend@ == full) && *final(self)
                    == *old(self))
                &&& (delegation.amount.amount * DEC_FRACTIONAL <= MAX_DEC_ATOMICS && full
                    <= old(self).delegates@ && old(self).unique_delegations == 0 ==> r
                    == Err::<Coin, MixnetContractError>(
                    MixnetContractError::OverflowSubtraction { minuend: 0, subtrahend: 1 },
                ) && *final(self) == *old(self))
                &&& (delegation.amount.amount * DEC_FRACTIONAL <= MAX_DEC_ATOMICS && full
                    <= old(self).delegates@ && old(self).unique_delegations >= 1 ==> r.is_ok()
                    && r.unwrap().amount == full / (DEC_FRACTIONAL as int)
                    && r.unwrap().denom@ == delegation.amount.denom@ && final(self).same_bookkeeping(*old(self)) && final(self).unique_delegations == old(self).unique_delegations - 1 && (old(self).unique_delegations == 1 ==> final(self).delegates@ == 0 && final(self).operator@ == old(self).operator@ + old(self).delegates@ - full) && (old(self).unique_delegations > 1 ==> final(self).delegates@ == old(self).delegates@ - full && final(self).operator == old(self).operator) && final(self).wf())
            }),
    {
        let reward = match self.determine_delegation_reward(delegation) {
            Ok(d) => d,
            Err(e) => {
                return Err(e);
            },
        };
        let amount_dec = match delegation.dec_amount() {
            Ok(d) => d,
            Err(e) => {
                return Err(e);
            },
        };
        proof {
            use_type_invariant(reward);
            use_type_invariant(amount_dec);
        }
        let full_amount = reward.plus(amount_dec);
        match self.remove_delegation_decimal(full_amount) {
            Ok(()) => {},
            Err(e) => {
                return Err(e);
            },
        }
        Ok(truncate_reward(full_amount, delegation.amount.denom.as_str()))
    }

    /// Shrinks the delegate pool by a decimal amount; rejects the request
    /// when the pool does not hold that much, leaving the state untouched.
    pub fn decrease_delegates_decimal(&mut self, amount: Dec) -> (r: Result<
        (),
        MixnetContractError,
    >)
        ensures
            old(self).delegates@ < amount@ ==> r == Err::<(), MixnetContractError>(
                MixnetContractError::OverflowDecimalSubtraction {
                    minuend: old(self).delegates,
                    subtrahend: amount,
                },
            ) && *final(self) == *old(self),
            amount@ <= old(self).delegates@ ==> r.is_ok() && final(self).delegates@ == old(self).delegates@ - amount@ && final(self).operator == old(self).operator && final(self).unique_delegations == old(self).unique_delegations && final(self).same_bookkeeping(*old(self)) && (old(self).wf() ==> final(self).wf()),
    {
        if self.delegates.lt(amount) {
            return Err(
                MixnetContractError::OverflowDecimalSubtraction {
                    minuend: self.delegates,
                    subtrahend: amount,
                },
            );
        }
        proof {
            use_type_invariant(amount);
        }
        self.delegates = self.delegates.minus(amount);
        Ok(())
    }

    /// Shrinks the operator pool by a decimal amount; rejects the request
    /// when the pool does not hold that much, leaving the state untouched.
    pub fn decrease_operator_decimal(&mut self, amount: Dec) -> (r: Result<
        (),
        MixnetContractError,
    >)
        ensures
            old(self).operator@ < amount@ ==> r == Err::<(), MixnetContractError>(
                MixnetContractError::OverflowDecimalSubtraction {
                    minuend: old(self).operator,
                    subtrahend: amount,
                },
            ) && *final(self) == *old(self),
            amount@ <= old(self).operator@ ==> r.is_ok() && final(self).operator@ == old(self).operator@ - amount@ && final(self).delegates == old(self).delegates && final(self).unique_delegations == old(self).unique_delegations && final(self).same_bookkeeping(*old(self)) && (old(self).wf() ==> final(self).wf()),
    {
        if self.operator.lt(amount) {
            return Err(
                MixnetContractError::OverflowDecimalSubtraction {
                    minuend: self.operator,
                    subtrahend: amount,
                },
            );
        }
        proof {
            use_type_invariant(amount);
        }
        self.operator = self.operator.minus(amount);
        Ok(())
    }

    /// Saturation of the whole bond without the cap: may exceed one.
    pub open spec fn uncapped_bond_saturation_spec(self, params: RewardingParams) -> int {
        scaled_div(self.node_bond_spec(), params.interval.stake_saturation_point@)
    }

    /// Saturation over all the tokens staked on this node, without the cap:
    /// may exceed one, for diagnostics only.
    pub fn uncapped_bond_saturation(&self, reward_params: &RewardingParams) -> (r: Dec)
        requires
            reward_params.wf(),
            self.node_bond_spec() <= MAX_DEC_ATOMICS,
            self.uncapped_bond_saturation_spec(*reward_params) <= MAX_DEC_ATOMICS,
        ensures
            r@ == self.uncapped_bond_saturation_spec(*reward_params),
    {
        self.node_bond().div_by(reward_params.interval.stake_saturation_point)
    }
}

/// Basic mixnode bond information provided by the node operator.
#[derive(Clone, Debug, PartialEq, Eq)]
pub struct MixNodeBond {
    /// Unique id assigned to the bonded mixnode.
    pub mix_id: MixId,

    /// Address of the owner of this mixnode.
    pub owner: String,

    /// Original amount pledged by the operator of this node.
    pub original_pledge: Coin,

    /// Layer assigned to this mixnode.
    pub layer: Layer,

    /// Information provided by the operator for the purposes of bonding.
    pub mix_node: MixNode,

    /// Entity who bonded this mixnode on behalf of the owner, if any.
    pub proxy: Option<String>,

    /// Block height at which this mixnode has been bonded.
    pub bonding_height: u64,

    /// Whether this node is in the process of unbonding, concluding upon
    /// the epoch finishing.
    pub is_unbonding: bool,
}

impl MixNodeBond {
    /// Builds a fresh bond; a new node is never unbonding.
    pub fn new(
        mix_id: MixId,
        owner: String,
        original_pledge: Coin,
        layer: Layer,
        mix_node: MixNode,
        proxy: Option<String>,
        bonding_height: u64,
    ) -> (r: MixNodeBond)
        ensures
            r.mix_id == mix_id,
            r.owner@ == owner@,
            r.original_pledge == original_pledge,
            r.layer == layer,
            r.mix_node == mix_node,
            r.proxy == proxy,
            r.bonding_height == bonding_height,
            r.is_unbonding == false,
    {
        MixNodeBond {
            mix_id,
            owner,
            original_pledge,
            layer,
            mix_node,
            proxy,
            bonding_height,
            is_unbonding: false,
        }
    }

    /// The node's identity key.
    pub fn identity(&self) -> (r: &str)
        ensures
            r@ == self.mix_node.identity_key@,
    {
        self.mix_node.identity_key.as_str()
    }

    /// The operator's original pledge.
    pub fn original_pledge(&self) -> (r: &Coin)
        ensures
            r == &self.original_pledge,
    {
        &self.original_pledge
    }

    /// The owner's address.
    pub fn owner(&self) -> (r: &String)
        ensures
            r == &self.owner,
    {
        &self.owner
    }

    /// The bonding information provided by the operator.
    pub fn mix_node(&self) -> (r: &MixNode)
        ensures
            r == &self.mix_node,
    {
        &self.mix_node
    }
}

/// Full details associated with a mixnode.
#[derive(Clone, Debug, PartialEq, Eq)]
pub struct MixNodeDetails {
    /// Basic bond information: owner address, original pledge and the like.
    pub bond_information: MixNodeBond,

    /// Economic state used for reward computation.
    pub rewarding_details: MixNodeRewarding,

    /// Adjustments that ought to happen during future epoch transitions.
    pub pending_changes: PendingMixNodeChanges,
}

impl MixNodeDetails {
    /// Bundles the details of one mixnode.
    pub fn new(
        bond_information: MixNodeBond,
        rewarding_details: MixNodeRewarding,
        pending_changes: PendingMixNodeChanges,
    ) -> (r: MixNodeDetails)
        ensures
            r.bond_information == bond_information,
            r.rewarding_details == rewarding_details,
            r.pending_changes == pending_changes,
    {
        MixNodeDetails { bond_information, rewarding_details, pending_changes }
    }

    /// The node's id.
    pub fn mix_id(&self) -> (r: MixId)
        ensures
            r == self.bond_information.mix_id,
    {
        self.bond_information.mix_id
    }

    /// The node's layer.
    pub fn layer(&self) -> (r: Layer)
        ensures
            r == self.bond_information.layer,
    {
        self.bond_information.layer
    }

    /// Whether the node is in the process of unbonding.
    pub fn is_unbonding(&self) -> (r: bool)
        ensures
            r == self.bond_information.is_unbonding,
    {
        self.bond_information.is_unbonding
    }

    /// The operator's original pledge.
    pub fn original_pledge(&self) -> (r: &Coin)
        ensures
            r == &self.bond_information.original_pledge,
    {
        &self.bond_information.original_pledge
    }

    /// The operator's accumulated reward, truncated into coins.
    pub fn pending_operator_reward(&self) -> (r: Coin)
        requires
            self.bond_information.original_pledge.amount <= self.rewarding_details.operator@
                / (DEC_FRACTIONAL as int),
        ensures
            r.amount == self.rewarding_details.operator@ / (DEC_FRACTIONAL as int)
                - self.bond_information.original_pledge.amount,
            r.denom@ == self.bond_information.original_pledge.denom@,
    {
        let pledge = self.original_pledge();
        self.rewarding_details.pending_operator_reward(pledge)
    }

    /// The operator's accumulated reward at full decimal precision.
    pub fn pending_detailed_operator_reward(&self) -> (r: Result<Dec, MixnetContractError>)
        ensures
            self.bond_information.original_pledge.amount * DEC_FRACTIONAL > MAX_DEC_ATOMICS
                ==> r == Err::<Dec, MixnetContractError>(
                MixnetContractError::DecimalRangeExceeded {
                    amount: self.bond_information.original_pledge.amount,
                },
            ),
            self.bond_information.original_pledge.amount * DEC_FRACTIONAL <= MAX_DEC_ATOMICS
                && self.rewarding_details.operator@ < self.bond_information.original_pledge.amount
                * DEC_FRACTIONAL ==> (r matches Err(
                MixnetContractError::OperatorPoolBelowPledge { operator, pledge },
            ) && operator == self.rewarding_details.operator && pledge@
                == self.bond_information.original_pledge.amount * DEC_FRACTIONAL),
            self.bond_information.original_pledge.amount * DEC_FRACTIONAL
                <= self.rewarding_details.operator@ ==> r.is_ok() && r.unwrap()@
                == self.rewarding_details.operator@ - self.bond_information.original_pledge.amount
                * DEC_FRACTIONAL,
    {
        let pledge = self.original_pledge();
        self.rewarding_details.pending_detailed_operator_reward(pledge)
    }

    /// Total stake behind the node.
    pub fn total_stake(&self) -> (r: Dec)
        requires
            self.rewarding_details.node_bond_spec() <= MAX_DEC_ATOMICS,
        ensures
            r@ == self.rewarding_details.node_bond_spec(),
    {
        self.rewarding_details.node_bond()
    }

    /// The pending pledge change, if any.
    pub fn pending_pledge_change(&self) -> (r: Option<EpochEventId>)
        ensures
            r == self.pending_changes.pledge_change,
    {
        self.pending_changes.pledge_change
    }
}

/// Basic information of a node that used to be part of the mix network but
/// has already unbonded.
#[derive(Clone, Debug, PartialEq, Eq)]
pub struct UnbondedMixnode {
    /// Base58-encoded ed25519 EdDSA public key.
    pub identity_key: IdentityKey,

    /// Address of the owner of this mixnode.
    pub owner: String,

    /// Entity who bonded this mixnode on behalf of the owner, if any.
    pub proxy: Option<String>,

    /// Block height at which this mixnode unbonded.
    pub unbonding_height: u64,
}

/// Response containing a paged list of all mixnode bonds in the contract.
#[derive(Clone, Debug, PartialEq, Eq)]
pub struct PagedMixnodeBondsResponse {
    /// The mixnode bond information present in the contract.
    pub nodes: Vec<MixNodeBond>,

    /// Maximum number of entries that could be included in a response.
    pub per_page: usize,

    /// Paging information for the follow-up query, if further entries
    /// exist.
    pub start_next_after: Option<MixId>,
}

impl PagedMixnodeBondsResponse {
    /// Bundles one page of mixnode bonds.
    pub fn new(
        nodes: Vec<MixNodeBond>,
        per_page: usize,
        start_next_after: Option<MixId>,
    ) -> (r: PagedMixnodeBondsResponse)
        ensures
            r.nodes == nodes,
            r.per_page == per_page,
            r.start_next_after == start_next_after,
    {
        PagedMixnodeBondsResponse { nodes, per_page, start_next_after }
    }
}

/// Response containing a paged list of all mixnode details in the contract.
#[derive(Clone, Debug, PartialEq, Eq)]
pub struct PagedMixnodesDetailsResponse {
    /// All mixnode details stored in the contract.
    pub nodes: Vec<MixNodeDetails>,

    /// Maximum number of entries that could be included in a response.
    pub per_page: usize,

    /// Paging information for the follow-up query, if further entries
    /// exist.
    pub start_next_after: Option<MixId>,
}

impl PagedMixnodesDetailsResponse {
    /// Bundles one page of mixnode details.
    pub fn new(
        nodes: Vec<MixNodeDetails>,
        per_page: usize,
        start_next_after: Option<MixId>,
    ) -> (r: PagedMixnodesDetailsResponse)
        ensures
            r.nodes == nodes,
            r.per_page == per_page,
            r.start_next_after == start_next_after,
    {
        PagedMixnodesDetailsResponse { nodes, per_page, start_next_after }
    }
}

/// Response containing a paged list of all mixnodes that ever unbonded.
#[derive(Clone, Debug, PartialEq, Eq)]
pub struct PagedUnbondedMixnodesResponse {
    /// Ids of unbonded mixnodes alongside their basic information.
    pub nodes: Vec<(MixId, UnbondedMixnode)>,

    /// Maximum number of entries that could be included in a response.
    pub per_page: usize,

    /// Paging information for the follow-up query, if further entries
    /// exist.
    pub start_next_after: Option<MixId>,
}

impl PagedUnbondedMixnodesResponse {
    /// Bundles one page of unbonded mixnodes.
    pub fn new(
        nodes: Vec<(MixId, UnbondedMixnode)>,
        per_page: usize,
        start_next_after: Option<MixId>,
    ) -> (r: PagedUnbondedMixnodesResponse)
        ensures
            r.nodes == nodes,
            r.per_page == per_page,
            r.start_next_after == start_next_after,
    {
        PagedUnbondedMixnodesResponse { nodes, per_page, start_next_after }
    }
}

/// Response containing the details of a mixnode belonging to a particular
/// owner.
#[derive(Clone, Debug, PartialEq, Eq)]
pub struct MixOwnershipResponse {
    /// Validated address of the mixnode owner.
    pub address: String,

    /// Details of the owner's mixnode, if the owner has one.
    pub mixnode_details: Option<MixNodeDetails>,
}

/// Response containing the details of a mixnode with a particular id.
#[derive(Clone, Debug, PartialEq, Eq)]
pub struct MixnodeDetailsResponse {
    /// Id of the requested mixnode.
    pub mix_id: MixId,

    /// Details of the mixnode, if one with the requested id exists.
    pub mixnode_details: Option<MixNodeDetails>,
}

/// Response containing the details of a bonded mixnode with a particular
/// identity key.
#[derive(Clone, Debug, PartialEq, Eq)]
pub struct MixnodeDetailsByIdentityResponse {
    /// The identity key of the mixnode.
    pub identity_key: IdentityKey,

    /// Details of the mixnode, if one with the requested identity is
    /// bonded.
    pub mixnode_details: Option<MixNodeDetails>,
}

/// Response containing the rewarding information of a mixnode with a
/// particular id.
#[derive(Clone, Debug, PartialEq, Eq)]
pub struct MixnodeRewardingDetailsResponse {
    /// Id of the requested mixnode.
    pub mix_id: MixId,

    /// Rewarding information of the mixnode, if one with the requested id
    /// exists.
    pub rewarding_details: Option<MixNodeRewarding>,
}

/// Response containing the basic information of an unbonded mixnode with a
/// particular id.
#[derive(Clone, Debug, PartialEq, Eq)]
pub struct UnbondedMixnodeResponse {
    /// Id of the requested mixnode.
    pub mix_id: MixId,

    /// Basic information of the node, if one with the requested id ever
    /// existed.
    pub unbonded_info: Option<UnbondedMixnode>,
}

/// Response containing the current stake saturation of a mixnode with a
/// particular id.
#[derive(Clone, Debug, PartialEq, Eq)]
pub struct StakeSaturationResponse {
    /// Id of the requested mixnode.
    pub mix_id: MixId,

    /// The node's saturation as used in reward formulas; never above one.
    pub current_saturation: Option<Dec>,

    /// The node's absolute saturation; may exceed one, with no effect on
    /// the reward beyond that point.
    pub uncapped_saturation: Option<Dec>,
}

} // verus!

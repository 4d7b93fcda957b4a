//! Global economic parameters supplied per epoch by the external epoch
//! scheduler, and the per-node inputs of one settlement.

use vstd::prelude::*;

use crate::decimal::{
    into_base_decimal, lemma_scaled_div_le_one, lemma_scaled_mul_comm, lemma_scaled_mul_le_left,
    lemma_scaled_mul_monotone, lemma_scaled_mul_nonneg, scaled_div, scaled_mul, Dec,
    DEC_FRACTIONAL, MAX_DEC_ATOMICS,
};
use crate::percent::Percent;

verus! {

/// Interval-wide economic parameters.
#[derive(Clone, Copy, Debug, PartialEq, Eq, Structural)]
pub struct IntervalRewardParams {
    /// Reward budget available to a single epoch.
    pub epoch_reward_budget: Dec,

    /// Amount of stake the network wants concentrated on a single node at
    /// most; saturation reaches one at this point.
    pub stake_saturation_point: Dec,

    /// Weight of the operator's own pledge in the reward formula, written
    /// alpha in the formula. Discourages splitting stake over many
    /// low-pledge nodes.
    pub sybil_resistance: Percent,

    /// How much more work an active-set node performs compared to a
    /// standby node; at least one.
    pub active_set_work_factor: Dec,
}

/// Global parameters of one rewarding epoch.
#[derive(Clone, Copy, Debug, PartialEq, Eq, Structural)]
pub struct RewardingParams {
    /// Interval-wide economics.
    pub interval: IntervalRewardParams,

    /// Number of nodes eligible for rewards, active and standby together.
    pub rewarded_set_size: u32,

    /// Number of nodes in the active set.
    pub active_set_size: u32,
}

/// Per-node inputs of one epoch settlement.
#[derive(Clone, Copy, Debug, PartialEq, Eq, Structural)]
pub struct NodeRewardParams {
    /// The node's measured performance for the epoch, between zero and one.
    pub performance: Percent,

    /// Whether the node was part of the active set this epoch.
    pub in_active_set: bool,
}

impl NodeRewardParams {
    /// Bundles the per-node settlement inputs.
    pub fn new(performance: Percent, in_active_set: bool) -> (r: NodeRewardParams)
        ensures
            r.performance == performance,
            r.in_active_set == in_active_set,
    {
        NodeRewardParams { performance, in_active_set }
    }
}

/// The decimal value of a set size.
pub open spec fn set_size_atomics(n: u32) -> int {
    n * (DEC_FRACTIONAL as int)
}

impl RewardingParams {
    /// Well-formedness of the supplied parameters: a positive saturation
    /// point, a coherently sized rewarded set, and a work factor of at
    /// least one whose derived work terms stay representable.
    pub open spec fn wf(self) -> bool {
        &&& self.interval.stake_saturation_point@ > 0
        &&& 1 <= self.rewarded_set_size
        &&& self.active_set_size <= self.rewarded_set_size
        &&& DEC_FRACTIONAL <= self.interval.active_set_work_factor@
        &&& self.interval.active_set_work_factor@ + DEC_FRACTIONAL <= MAX_DEC_ATOMICS
        &&& scaled_mul(
            self.interval.active_set_work_factor@,
            set_size_atomics(self.rewarded_set_size),
        ) <= MAX_DEC_ATOMICS
    }

    /// The total work performed by the rewarded set, measured in standby
    /// units: the active nodes count `active_set_work_factor` each and the
    /// standby nodes one each, all scaled so that the work shares of the
    /// whole set sum to one.
    pub open spec fn total_work_spec(self) -> int {
        scaled_mul(
            self.interval.active_set_work_factor@,
            set_size_atomics(self.rewarded_set_size),
        ) - scaled_mul(
            self.interval.active_set_work_factor@ - DEC_FRACTIONAL,
            set_size_atomics((self.rewarded_set_size - self.active_set_size) as u32),
        )
    }

    /// Work share of a single standby node.
    pub open spec fn standby_node_work_spec(self) -> int {
        scaled_div(DEC_FRACTIONAL as int, self.total_work_spec())
    }

    /// Work share of a single active node.
    pub open spec fn active_node_work_spec(self) -> int {
        scaled_mul(self.interval.active_set_work_factor@, self.standby_node_work_spec())
    }

    /// The total work is at least the rewarded set size (in atomics), so in
    /// particular positive, and the work shares lie between zero and one.
    pub proof fn lemma_work_bounds(self)
        requires
            self.wf(),
        ensures
            set_size_atomics(self.rewarded_set_size) <= self.total_work_spec()
                <= MAX_DEC_ATOMICS,
            0 <= self.standby_node_work_spec() <= DEC_FRACTIONAL,
            0 <= self.active_node_work_spec() <= self.interval.active_set_work_factor@,
    {
        let e = DEC_FRACTIONAL as int;
        let f = self.interval.active_set_work_factor@;
        let k = set_size_atomics(self.rewarded_set_size);
        let kr = set_size_atomics((self.rewarded_set_size - self.active_set_size) as u32);
        assert(0 <= kr <= k && e <= k) by (nonlinear_arith)
            requires
                k == self.rewarded_set_size * e,
                kr == (self.rewarded_set_size - self.active_set_size) * e,
                1 <= self.rewarded_set_size,
                self.active_set_size <= self.rewarded_set_size,
                e == DEC_FRACTIONAL as int,
        ;
        // f * k dominates (f - 1) * kr by at least k whole units of work
        assert(f * k >= (f - e) * kr + k * e) by (nonlinear_arith)
            requires
                0 <= kr <= k,
                e <= f,
        ;
        vstd::arithmetic::div_mod::lemma_div_is_ordered((f - e) * kr + k * e, f * k, e);
        vstd::arithmetic::div_mod::lemma_hoist_over_denominator((f - e) * kr, k, e as nat);
        assert(scaled_mul(f, k) >= scaled_mul(f - e, kr) + k);
        assert(self.total_work_spec() >= k);
        lemma_scaled_mul_nonneg(f - e, kr);
        assert(self.total_work_spec() <= scaled_mul(f, k));
        lemma_scaled_div_le_one(e, self.total_work_spec());
        vstd::arithmetic::div_mod::lemma_div_pos_is_pos(
            e * e,
            self.total_work_spec(),
        );
        lemma_scaled_mul_le_left(f, self.standby_node_work_spec());
        lemma_scaled_mul_nonneg(f, self.standby_node_work_spec());
    }

    /// The rewarded set size as a decimal.
    pub fn dec_rewarded_set_size(&self) -> (r: Dec)
        requires
            self.wf(),
        ensures
            r@ == set_size_atomics(self.rewarded_set_size),
    {
        dec_of_set_size(self.rewarded_set_size)
    }

    /// The standby set size as a decimal.
    pub fn dec_standby_set_size(&self) -> (r: Dec)
        requires
            self.wf(),
        ensures
            r@ == set_size_atomics((self.rewarded_set_size - self.active_set_size) as u32),
    {
        dec_of_set_size(self.rewarded_set_size - self.active_set_size)
    }

    /// Work share of a single standby node, derived so that the work of the
    /// whole rewarded set sums to one.
    pub fn standby_node_work(&self) -> (r: Dec)
        requires
            self.wf(),
        ensures
            r@ == self.standby_node_work_spec(),
            r@ <= DEC_FRACTIONAL,
    {
        proof {
            use_type_invariant(self.interval.active_set_work_factor);
            self.lemma_work_bounds();
        }
        let one = Dec::one();
        let f = self.interval.active_set_work_factor;
        let k = self.dec_rewarded_set_size();
        let kr = self.dec_standby_set_size();
        let ghost e = DEC_FRACTIONAL as int;
        proof {
            lemma_scaled_mul_nonneg(f@ - e, kr@);
            lemma_scaled_mul_monotone(kr@, k@, f@ - e);
            lemma_scaled_mul_comm(kr@, f@ - e);
            lemma_scaled_mul_comm(k@, f@ - e);
            assert(scaled_mul(f@ - e, k@) <= scaled_mul(f@, k@)) by {
                lemma_scaled_mul_monotone(f@ - e, f@, k@);
                lemma_scaled_mul_comm(f@ - e, k@);
                lemma_scaled_mul_comm(f@, k@);
            }
        }
        let m1 = f.times(k);
        let m2 = f.minus(one).times(kr);
        let total_work = m1.minus(m2);
        one.div_by(total_work)
    }

    /// Work share of a single active node: `active_set_work_factor` times
    /// the standby share.
    pub fn active_node_work(&self) -> (r: Dec)
        requires
            self.wf(),
        ensures
            r@ == self.active_node_work_spec(),
            r@ <= self.interval.active_set_work_factor@,
    {
        proof {
            use_type_invariant(self.interval.active_set_work_factor);
            self.lemma_work_bounds();
        }
        let standby = self.standby_node_work();
        proof {
            lemma_scaled_mul_le_left(self.interval.active_set_work_factor@, standby@);
        }
        self.interval.active_set_work_factor.times(standby)
    }
}

/// A set size always fits the decimal domain.
fn dec_of_set_size(n: u32) -> (r: Dec)
    ensures
        r@ == set_size_atomics(n),
{
    proof {
        assert((n as int) * (DEC_FRACTIONAL as int) <= MAX_DEC_ATOMICS) by (nonlinear_arith)
            requires
                0 <= n <= 4_294_967_295u32,
                DEC_FRACTIONAL == 1_000_000_000_000_000_000u128,
                MAX_DEC_ATOMICS == 10_000_000_000_000_000_000_000_000_000_000_000_000u128,
        ;
    }
    match into_base_decimal(n as u128) {
        Ok(d) => d,
        Err(_) => {
            // unreachable: a set size scaled to atomics is far below the cap
            proof {
                assert(false);
            }
            Dec::zero()
        },
    }
}

} // verus!

use mixnet_rewarding::{
    Coin, Dec, Delegation, IntervalRewardParams, MixNodeCostParams, MixNodeRewarding,
    MixnetContractError, NodeRewardParams, Percent, RewardingParams, into_base_decimal,
    unit_delegation_base,
};

fn dec(units: u128) -> Dec {
    into_base_decimal(units).unwrap()
}

fn sample_interval_params() -> IntervalRewardParams {
    IntervalRewardParams {
        epoch_reward_budget: dec(1000),
        stake_saturation_point: dec(1000),
        sybil_resistance: Percent::from_percentage_value(30).unwrap(),
        active_set_work_factor: dec(10),
    }
}

fn sample_params() -> RewardingParams {
    RewardingParams { interval: sample_interval_params(), rewarded_set_size: 10, active_set_size: 8 }
}

fn sample_cost_params() -> MixNodeCostParams {
    MixNodeCostParams {
        profit_margin_percent: Percent::from_percentage_value(10).unwrap(),
        interval_operating_cost: Coin::new(40, "unym".to_string()),
    }
}

fn bonded_node(pledge: u128) -> MixNodeRewarding {
    MixNodeRewarding::initialise_new(sample_cost_params(), &Coin::new(pledge, "unym".to_string()), 0)
        .unwrap()
}

#[test]
fn fresh_record_holds_exactly_the_pledge() {
    let record = bonded_node(100);
    assert_eq!(record.operator, dec(100));
    assert_eq!(record.delegates, Dec::zero());
    assert_eq!(record.total_unit_reward, Dec::zero());
    assert_eq!(record.unit_delegation, unit_delegation_base());
    assert_eq!(record.last_rewarded_epoch, 0);
    assert_eq!(record.unique_delegations, 0);
    assert!(record.still_bonded());
}

#[test]
fn pledge_at_token_supply_is_accepted() {
    let record = bonded_node(1_000_000_000_000_000);
    assert_eq!(record.operator, dec(1_000_000_000_000_000));
}

#[test]
fn work_shares_of_sample_params() {
    let params = sample_params();
    assert_eq!(params.standby_node_work().atomics(), 12_195_121_951_219_512);
    assert_eq!(params.active_node_work().atomics(), 121_951_219_512_195_120);
}

#[test]
fn saturations_of_sample_node() {
    let params = sample_params();
    let mut record = bonded_node(100);
    record.add_base_delegation(50).unwrap();
    record.add_base_delegation(50).unwrap();
    // operator 100 of 1000, bond 200 of 1000
    assert_eq!(record.pledge_saturation(&params).atomics(), 100_000_000_000_000_000);
    assert_eq!(record.bond_saturation(&params).atomics(), 200_000_000_000_000_000);
    assert_eq!(record.uncapped_bond_saturation(&params).atomics(), 200_000_000_000_000_000);
}

#[test]
fn saturations_never_exceed_one() {
    let params = sample_params();
    let record = bonded_node(900_000);
    // operator far beyond the 1000-unit saturation point
    assert_eq!(record.pledge_saturation(&params), Dec::one());
    assert_eq!(record.bond_saturation(&params), Dec::one());
}

#[test]
fn uncapped_saturation_exceeds_one() {
    let params = sample_params();
    let record = bonded_node(2000);
    // twice the saturation point: exactly 2.0
    assert_eq!(record.uncapped_bond_saturation(&params).atomics(), 2_000_000_000_000_000_000);
    assert!(record.uncapped_bond_saturation(&params).atomics() > Dec::one().atomics());
}

#[test]
fn epoch_operating_cost_splits_interval_cost() {
    let cost_params = sample_cost_params();
    // 40 units over 10 epochs: 4 whole units
    assert_eq!(cost_params.epoch_operating_cost(10), dec(4));
    // 40 units over 3 epochs: 13.33... truncated at the eighteenth digit
    assert_eq!(cost_params.epoch_operating_cost(3).atomics(), 13_333_333_333_333_333_333);
}

#[test]
fn node_reward_of_sample_scenario() {
    let params = sample_params();
    let node_params = NodeRewardParams::new(Percent::hundred(), true);
    let mut record = bonded_node(100);
    record.add_base_delegation(50).unwrap();
    record.add_base_delegation(50).unwrap();
    let reward = record.node_reward(&params, node_params);
    assert_eq!(reward.atomics(), 19_223_264_540_337_710_769);
}

#[test]
fn standby_node_earns_the_standby_work_share() {
    let params = sample_params();
    let node_params = NodeRewardParams::new(Percent::hundred(), false);
    let mut record = bonded_node(100);
    record.add_base_delegation(50).unwrap();
    record.add_base_delegation(50).unwrap();
    let reward = record.node_reward(&params, node_params);
    assert_eq!(reward.atomics(), 2_337_711_069_418_386_461);
}

#[test]
fn zero_performance_earns_nothing() {
    let params = sample_params();
    let node_params = NodeRewardParams::new(Percent::zero(), true);
    let mut record = bonded_node(100);
    record.add_base_delegation(50).unwrap();
    let reward = record.node_reward(&params, node_params);
    assert_eq!(reward, Dec::zero());
    let split = record.determine_reward_split(reward, Percent::zero(), 10);
    assert_eq!(split.operator, Dec::zero());
    assert_eq!(split.delegates, Dec::zero());
}

#[test]
fn reward_split_conserves_value_exactly() {
    let params = sample_params();
    let node_params = NodeRewardParams::new(Percent::hundred(), true);
    let mut record = bonded_node(100);
    record.add_base_delegation(50).unwrap();
    record.add_base_delegation(50).unwrap();
    let reward = record.node_reward(&params, node_params);
    let split = record.determine_reward_split(reward, Percent::hundred(), 10);
    assert_eq!(split.operator.atomics(), 12_372_795_497_185_740_922);
    assert_eq!(split.delegates.atomics(), 6_850_469_043_151_969_847);
    // operator take + delegates take + node cost == node reward, exactly
    assert_eq!(split.operator.atomics() + split.delegates.atomics(), reward.atomics());
}

#[test]
fn reward_below_cost_goes_to_operator_alone() {
    let mut record = bonded_node(100);
    record.add_base_delegation(50).unwrap();
    // node cost is 4 whole units; a reward of 1 unit does not cover it
    let split = record.determine_reward_split(dec(1), Percent::hundred(), 10);
    assert_eq!(split.operator, dec(1));
    assert_eq!(split.delegates, Dec::zero());
}

#[test]
fn settlement_scenario_with_two_delegators() {
    let params = sample_params();
    let node_params = NodeRewardParams::new(Percent::hundred(), true);
    let mut record = bonded_node(100);
    record.add_base_delegation(50).unwrap();
    record.add_base_delegation(50).unwrap();
    assert_eq!(record.delegates, dec(100));
    assert_eq!(record.unique_delegations, 2);

    record.epoch_rewarding(&params, node_params, 10, 1);

    assert_eq!(record.operator.atomics(), 112_372_795_497_185_740_922);
    assert_eq!(record.delegates.atomics(), 106_850_469_043_151_969_847);
    assert_eq!(record.total_unit_reward.atomics(), 68_504_690_431_519_698_470_000_000);
    assert_eq!(record.last_rewarded_epoch, 1);

    // each delegator sees exactly half of the delegates' take, truncated
    let alice = Delegation::new(
        "alice".to_string(),
        1,
        Dec::zero(),
        Coin::new(50, "unym".to_string()),
        123,
    );
    let bob = Delegation::new(
        "bob".to_string(),
        1,
        Dec::zero(),
        Coin::new(50, "unym".to_string()),
        124,
    );
    let pending_alice = record.determine_delegation_reward(&alice).unwrap();
    let pending_bob = record.determine_delegation_reward(&bob).unwrap();
    assert_eq!(pending_alice.atomics(), 3_425_234_521_575_984_923);
    assert_eq!(pending_alice, pending_bob);
    // delegates take was 6_850_469_043_151_969_847: half each, truncated
    assert_eq!(pending_alice.atomics(), 6_850_469_043_151_969_847 / 2);

    let coin = record.pending_delegator_reward(&alice).unwrap();
    assert_eq!(coin.amount, 3);
    assert_eq!(coin.denom, "unym".to_string());
}

#[test]
fn settlement_without_delegations_rewards_operator_only() {
    let params = sample_params();
    let node_params = NodeRewardParams::new(Percent::hundred(), true);
    let mut record = bonded_node(100);
    record.epoch_rewarding(&params, node_params, 10, 1);
    assert_eq!(record.delegates, Dec::zero());
    assert_eq!(record.total_unit_reward, Dec::zero());
    assert!(record.operator.atomics() > dec(100).atomics());
}

#[test]
fn delegation_reward_is_monotone_in_the_ratio() {
    let delegation = Delegation::new(
        "alice".to_string(),
        1,
        Dec::zero(),
        Coin::new(50, "unym".to_string()),
        123,
    );
    let mut earlier = bonded_node(100);
    earlier.add_base_delegation(50).unwrap();
    let mut later = earlier.clone();

    let params = sample_params();
    let node_params = NodeRewardParams::new(Percent::hundred(), true);
    later.epoch_rewarding(&params, node_params, 10, 1);
    let mut latest = later.clone();
    latest.epoch_rewarding(&params, node_params, 10, 2);

    let r0 = earlier.determine_delegation_reward(&delegation).unwrap();
    let r1 = later.determine_delegation_reward(&delegation).unwrap();
    let r2 = latest.determine_delegation_reward(&delegation).unwrap();
    assert!(r0.atomics() <= r1.atomics());
    assert!(r1.atomics() <= r2.atomics());
    assert_eq!(r0, Dec::zero());
    assert!(r1.atomics() > 0);
}

#[test]
fn undelegate_pays_principal_plus_pending_and_fails_twice() {
    // a node with one delegator whose pool already holds accrued rewards:
    // principal 50, accrued 2 whole units at a ratio of 0.04 per unit
    // delegation scaled to the 50-unit principal
    let mut record = bonded_node(100);
    record.add_base_delegation(50).unwrap();
    record.delegates = dec(52);
    record.total_unit_reward = Dec::from_atomics(40_000_000_000_000_000_000_000_000).unwrap();

    let delegation = Delegation::new(
        "alice".to_string(),
        1,
        Dec::zero(),
        Coin::new(50, "unym".to_string()),
        123,
    );
    let pending = record.pending_delegator_reward(&delegation).unwrap();
    assert_eq!(pending.amount, 2);

    let payout = record.undelegate(&delegation).unwrap();
    assert_eq!(payout.amount, 50 + pending.amount);
    assert_eq!(payout.denom, "unym".to_string());
    assert_eq!(record.delegates, Dec::zero());
    assert_eq!(record.unique_delegations, 0);

    // the delegation is gone; trying again must fail, not double-pay
    let second = record.undelegate(&delegation);
    assert!(matches!(
        second,
        Err(MixnetContractError::OverflowDecimalSubtraction { .. })
    ));
    assert_eq!(record.delegates, Dec::zero());
}

#[test]
fn removing_last_delegation_sweeps_dust_to_operator() {
    let mut record = bonded_node(100);
    record.add_base_delegation(50).unwrap();
    // simulate truncation dust left in the pool beyond the delegation
    record.delegates = Dec::from_atomics(50_000_000_000_000_000_000 + 7).unwrap();

    record.remove_delegation_decimal(dec(50)).unwrap();
    assert_eq!(record.unique_delegations, 0);
    assert_eq!(record.delegates, Dec::zero());
    assert_eq!(record.operator.atomics(), 100_000_000_000_000_000_000 + 7);
}

#[test]
fn removing_from_empty_record_fails() {
    let mut record = bonded_node(100);
    let r = record.remove_delegation_decimal(Dec::zero());
    assert_eq!(
        r,
        Err(MixnetContractError::OverflowSubtraction { minuend: 0, subtrahend: 1 })
    );
    assert_eq!(record.delegates, Dec::zero());
    assert_eq!(record.unique_delegations, 0);
}

#[test]
fn decrease_delegates_beyond_balance_is_rejected() {
    let mut record = bonded_node(100);
    record.add_base_delegation(50).unwrap();
    let r = record.decrease_delegates_decimal(dec(51));
    assert_eq!(
        r,
        Err(MixnetContractError::OverflowDecimalSubtraction {
            minuend: dec(50),
            subtrahend: dec(51),
        })
    );
    assert_eq!(record.delegates, dec(50));
}

#[test]
fn decrease_operator_beyond_balance_is_rejected() {
    let mut record = bonded_node(100);
    let r = record.decrease_operator_decimal(dec(101));
    assert_eq!(
        r,
        Err(MixnetContractError::OverflowDecimalSubtraction {
            minuend: dec(100),
            subtrahend: dec(101),
        })
    );
    assert_eq!(record.operator, dec(100));
}

#[test]
fn integer_pool_adjustments() {
    let mut record = bonded_node(100);
    record.increase_operator_uint128(10).unwrap();
    assert_eq!(record.operator, dec(110));
    record.decrease_operator_uint128(30).unwrap();
    assert_eq!(record.operator, dec(80));
    record.increase_delegates_uint128(25).unwrap();
    assert_eq!(record.delegates, dec(25));
    record.decrease_delegates_uint128(5).unwrap();
    assert_eq!(record.delegates, dec(20));
    let r = record.decrease_operator_uint128(81);
    assert!(matches!(
        r,
        Err(MixnetContractError::OverflowDecimalSubtraction { .. })
    ));
}

#[test]
fn remove_delegation_uint128_decrements_count() {
    let mut record = bonded_node(100);
    record.add_base_delegation(50).unwrap();
    record.add_base_delegation(20).unwrap();
    record.remove_delegation_uint128(20).unwrap();
    assert_eq!(record.delegates, dec(50));
    assert_eq!(record.unique_delegations, 1);
}

#[test]
fn withdraw_delegator_reward_settles_snapshot() {
    let mut record = bonded_node(100);
    record.add_base_delegation(50).unwrap();
    record.delegates = dec(52);
    record.total_unit_reward = Dec::from_atomics(40_000_000_000_000_000_000_000_000).unwrap();

    let mut delegation = Delegation::new(
        "alice".to_string(),
        1,
        Dec::zero(),
        Coin::new(50, "unym".to_string()),
        123,
    );
    let coin = record.withdraw_delegator_reward(&mut delegation).unwrap();
    assert_eq!(coin.amount, 2);
    assert_eq!(delegation.cumulative_reward_ratio, record.total_unit_reward);
    assert_eq!(record.delegates, dec(50));
    // the snapshot advanced: nothing further is pending
    let pending = record.pending_delegator_reward(&delegation).unwrap();
    assert_eq!(pending.amount, 0);
}

#[test]
fn operator_reward_withdrawal_resets_to_pledge() {
    let mut record = bonded_node(100);
    record.operator = dec(109);
    let pledge = Coin::new(100, "unym".to_string());

    let pending = record.pending_operator_reward(&pledge);
    assert_eq!(pending.amount, 9);
    let detailed = record.pending_detailed_operator_reward(&pledge).unwrap();
    assert_eq!(detailed, dec(9));

    let withdrawn = record.withdraw_operator_reward(&pledge).unwrap();
    assert_eq!(withdrawn.amount, 9);
    assert_eq!(withdrawn.denom, "unym".to_string());
    assert_eq!(record.operator, dec(100));

    let again = record.withdraw_operator_reward(&pledge).unwrap();
    assert_eq!(again.amount, 0);
}

#[test]
fn operator_pool_below_pledge_is_a_fatal_defect() {
    let mut record = bonded_node(100);
    let pledge = Coin::new(200, "unym".to_string());
    let r = record.withdraw_operator_reward(&pledge);
    assert_eq!(
        r,
        Err(MixnetContractError::OperatorPoolBelowPledge {
            operator: dec(100),
            pledge: dec(200),
        })
    );
    assert_eq!(record.operator, dec(100));
    let d = record.pending_detailed_operator_reward(&pledge);
    assert!(matches!(
        d,
        Err(MixnetContractError::OperatorPoolBelowPledge { .. })
    ));
}

#[test]
fn operator_pledge_with_reward_truncates() {
    let mut record = bonded_node(100);
    record.operator = Dec::from_atomics(109_700_000_000_000_000_000).unwrap();
    let coin = record.operator_pledge_with_reward("unym");
    assert_eq!(coin.amount, 109);
    assert_eq!(coin.denom, "unym".to_string());
}

#[test]
fn oversized_delegation_is_rejected() {
    let mut record = bonded_node(100);
    let r = record.add_base_delegation(100_000_000_000_000_000_000);
    assert_eq!(
        r,
        Err(MixnetContractError::DecimalRangeExceeded { amount: 100_000_000_000_000_000_000 })
    );
    assert_eq!(record.delegates, Dec::zero());
    assert_eq!(record.unique_delegations, 0);
}

//! Economic rewarding engine for mix-network nodes.
//!
//! The engine computes a node's epoch reward from global economic parameters
//! and per-node performance, splits it between the operator and the
//! delegators, and applies the split to the node's persistent economic state
//! in O(1) time through a single cumulative reward ratio. Individual
//! delegators later realise their exact accrued share against that ratio.
//!
//! All accounting uses an exact fixed-point decimal type with eighteen
//! fractional digits and truncation toward zero, so that every replica
//! deriving the same sequence of operations reaches bit-identical state.

mod bandwidth;
mod coin;
mod constants;
mod decimal;
mod delegation;
mod error;
mod laws;
mod mixnode;
mod percent;
mod reward_params;
mod rewarding;
mod types;

pub use bandwidth::{
    BandwidthCredentialIssuanceDataVariant, BandwidthVoucherIssuanceData, CredentialType,
    FreePassIssuanceData,
};
pub use coin::Coin;
pub use constants::{unit_delegation_base, TOKEN_SUPPLY, UNIT_DELEGATION_BASE_ATOMICS};
pub use decimal::{
    into_base_decimal, scaled_div, scaled_mul, Dec, DEC_FRACTIONAL, MAX_DEC_ATOMICS,
};
pub use delegation::Delegation;
pub use error::MixnetContractError;
pub use laws::{
    lemma_delegation_reward_monotonic, lemma_reward_split_conserves_value,
    lemma_saturations_capped, lemma_uncapped_saturation_unbounded,
};
pub use mixnode::{
    Layer, MixNode, MixNodeBond, MixNodeConfigUpdate, MixNodeCostParams, MixNodeDetails,
    MixNodeRewarding, MixOwnershipResponse, MixnodeDetailsByIdentityResponse,
    MixnodeDetailsResponse, MixnodeRewardingDetailsResponse, PagedMixnodeBondsResponse,
    PagedMixnodesDetailsResponse, PagedUnbondedMixnodesResponse, PendingMixNodeChanges,
    RewardedSetNodeStatus, StakeSaturationResponse, UnbondedMixnode, UnbondedMixnodeResponse,
};
pub use percent::Percent;
pub use reward_params::{IntervalRewardParams, NodeRewardParams, RewardingParams};
pub use rewarding::{truncate_reward, RewardDistribution};
pub use types::{EpochEventId, EpochId, IdentityKey, MixId, SphinxKey};

//! Genesis constants of the rewarding engine.

use vstd::prelude::*;

use crate::decimal::Dec;

verus! {

/// Total token supply in the minimal denomination; no pledge can exceed it.
pub const TOKEN_SUPPLY: u128 = 1_000_000_000_000_000;

/// Atomics of the theoretical "unit delegation" placed behind every node at
/// genesis: one billion whole units. The cumulative reward ratio of a node
/// is expressed as the total reward this reference delegation would have
/// earned. Fixed at genesis and never changed, otherwise every existing
/// delegation snapshot would be misread.
pub const UNIT_DELEGATION_BASE_ATOMICS: u128 = 1_000_000_000_000_000_000_000_000_000;

/// The unit delegation as a decimal.
pub fn unit_delegation_base() -> (r: Dec)
    ensures
        r@ == UNIT_DELEGATION_BASE_ATOMICS,
{
    match Dec::from_atomics(UNIT_DELEGATION_BASE_ATOMICS) {
        Ok(d) => d,
        Err(_) => {
            // unreachable: the constant is far below the decimal cap
            proof {
                assert(false);
            }
            Dec::zero()
        },
    }
}

} // verus!

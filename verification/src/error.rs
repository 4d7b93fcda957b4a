//! Typed errors surfaced by the rewarding engine.

use vstd::prelude::*;

use crate::decimal::Dec;

verus! {

/// Errors returned by the rewarding engine.
///
/// All variants except [`OperatorPoolBelowPledge`] are recoverable: they
/// reject an invalid request without any side effect on the engine state.
/// `OperatorPoolBelowPledge` reports a fatal defect: the operator pool fell
/// below the node's originally recorded pledge, which cannot happen under
/// correct protocol operation because slashing is not implemented. It must be
/// treated as an invariant violation, not as a caller-correctable rejection.
///
/// [`OperatorPoolBelowPledge`]: MixnetContractError::OperatorPoolBelowPledge
#[derive(Clone, Copy, Debug, PartialEq, Eq, Structural)]
pub enum MixnetContractError {
    /// An integer subtraction would underflow.
    OverflowSubtraction { minuend: u64, subtrahend: u64 },

    /// A decimal subtraction would make a balance negative.
    OverflowDecimalSubtraction { minuend: Dec, subtrahend: Dec },

    /// An integer amount cannot be represented in the fixed-point decimal
    /// domain.
    DecimalRangeExceeded { amount: u128 },

    /// A fraction value lies outside the closed interval from zero to one.
    InvalidPercentValue { value: Dec },

    /// A layer number other than one, two or three was supplied.
    InvalidLayer(u8),

    /// Fatal defect: the operator pool holds less than the node's original
    /// pledge, which would mean the pledge was slashed even though slashing
    /// is not implemented.
    OperatorPoolBelowPledge { operator: Dec, pledge: Dec },
}

} // verus!

//! Fractions constrained to the closed interval from zero to one.

use vstd::prelude::*;

use crate::decimal::{Dec, DEC_FRACTIONAL};
use crate::error::MixnetContractError;

verus! {

/// A decimal fraction guaranteed to lie between zero and one inclusive,
/// used for profit margins, performance scores and the sybil-resistance
/// weight.
///
/// The view of a `Percent` is the atomics count of the underlying decimal,
/// so one hundred percent views to `10^18`.
#[derive(Clone, Copy, Debug, PartialEq, Eq, Structural)]
pub struct Percent {
    value: Dec,
}

impl View for Percent {
    type V = int;

    closed spec fn view(&self) -> int {
        self.value@
    }
}

impl Percent {
    /// Type invariant: the fraction lies between zero and one.
    #[verifier::type_invariant]
    pub open spec fn in_range(self) -> bool {
        0 <= self@ <= DEC_FRACTIONAL
    }

    /// Wraps a decimal as a fraction, rejecting values above one.
    pub fn new(value: Dec) -> (r: Result<Percent, MixnetContractError>)
        ensures
            value@ <= DEC_FRACTIONAL ==> r.is_ok() && r.unwrap()@ == value@,
            value@ > DEC_FRACTIONAL ==> r == Err::<Percent, MixnetContractError>(
                MixnetContractError::InvalidPercentValue { value },
            ),
    {
        proof {
            use_type_invariant(value);
        }
        if value.le(Dec::one()) {
            Ok(Percent { value })
        } else {
            Err(MixnetContractError::InvalidPercentValue { value })
        }
    }

    /// Zero percent.
    pub fn zero() -> (r: Percent)
        ensures
            r@ == 0,
    {
        Percent { value: Dec::zero() }
    }

    /// One hundred percent.
    pub fn hundred() -> (r: Percent)
        ensures
            r@ == DEC_FRACTIONAL,
    {
        Percent { value: Dec::one() }
    }

    /// Builds a fraction from a whole-percent count, rejecting values above
    /// one hundred.
    pub fn from_percentage_value(value: u64) -> (r: Result<Percent, MixnetContractError>)
        ensures
            value <= 100 ==> r.is_ok() && r.unwrap()@ == value * (DEC_FRACTIONAL as int) / 100,
            value > 100 ==> r is Err,
    {
        let atomics: u128 = (value as u128) * (DEC_FRACTIONAL / 100);
        proof {
            assert(atomics == (value as int) * (DEC_FRACTIONAL as int) / 100 && atomics
                <= 18_446_744_073_709_551_615_0_000_000_000_000_000u128 && (value <= 100 ==> atomics
                <= DEC_FRACTIONAL) && (value > 100 ==> atomics > DEC_FRACTIONAL))
                by (nonlinear_arith)
                requires
                    atomics == (value as int) * ((DEC_FRACTIONAL as int) / 100),
                    0 <= value <= 18_446_744_073_709_551_615u64,
                    DEC_FRACTIONAL == 1_000_000_000_000_000_000u128,
            ;
        }
        match Dec::from_atomics(atomics) {
            Ok(fraction) => Percent::new(fraction),
            Err(e) => Err(e),
        }
    }

    /// The fraction as a decimal.
    pub fn value(self) -> (r: Dec)
        ensures
            r@ == self@,
            r@ <= DEC_FRACTIONAL,
    {
        proof {
            use_type_invariant(self);
        }
        self.value
    }
}

} // verus!

//! Denomination-tagged integer token amounts.

use vstd::prelude::*;

verus! {

/// An integer amount of tokens in a named minimal denomination.
///
/// Principal and every externally transferred value is expressed as a
/// `Coin`; internal accounting uses the decimal type and converts back with
/// explicit truncation toward zero.
#[derive(Clone, Debug, PartialEq, Eq)]
pub struct Coin {
    /// Denomination of the amount.
    pub denom: String,
    /// Amount in the minimal denomination.
    pub amount: u128,
}

impl Coin {
    /// Builds a coin from an amount and a denomination.
    pub fn new(amount: u128, denom: String) -> (r: Coin)
        ensures
            r.amount == amount,
            r.denom@ == denom@,
    {
        Coin { denom, amount }
    }
}

} // verus!

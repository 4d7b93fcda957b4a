//! Exact fixed-point decimal arithmetic.
//!
//! A [`Dec`] holds a non-negative value with eighteen fractional digits,
//! stored as an integer count of "atomics" (`value * 10^18`). Every
//! operation is exact except multiplication and division, which truncate
//! toward zero. Truncation toward zero is the single rounding rule of the
//! whole engine: a consensus-critical caller deriving the same operations on
//! two machines reaches bit-identical results.

use vstd::prelude::*;

use vstd::arithmetic::div_mod::{
    lemma_div_is_ordered, lemma_div_pos_is_pos, lemma_fundamental_div_mod,
    lemma_fundamental_div_mod_converse, lemma_mod_bound, lemma_multiply_divide_lt,
};
use vstd::arithmetic::mul::{lemma_mul_nonnegative, lemma_mul_strict_inequality};
use vstd::arithmetic::power::{lemma_pow1, lemma_pow_adds, pow};

use crate::error::MixnetContractError;

verus! {

/// Number of atomics in one whole unit: `10^18`.
pub const DEC_FRACTIONAL: u128 = 1_000_000_000_000_000_000;

/// Largest representable atomics count: `10^37`, i.e. values up to `10^19`
/// whole units. Every `Dec` holds at most this many atomics.
pub const MAX_DEC_ATOMICS: u128 = 10_000_000_000_000_000_000_000_000_000_000_000_000;

/// The mathematical value, in atomics, of the product of two decimals:
/// `floor(a * b / 10^18)`.
pub open spec fn scaled_mul(a: int, b: int) -> int {
    (a * b) / (DEC_FRACTIONAL as int)
}

/// The mathematical value, in atomics, of the quotient of two decimals:
/// `floor(a * 10^18 / b)`.
pub open spec fn scaled_div(a: int, b: int) -> int {
    (a * (DEC_FRACTIONAL as int)) / b
}

/// A non-negative fixed-point decimal with eighteen fractional digits.
///
/// The view of a `Dec` is its atomics count as a mathematical integer, so a
/// value `d` represents the rational number `d@ / 10^18`.
#[derive(Clone, Copy, Debug, PartialEq, Eq, Structural)]
pub struct Dec {
    atomics: u128,
}

impl View for Dec {
    type V = int;

    closed spec fn view(&self) -> int {
        self.atomics as int
    }
}

impl Dec {
    /// Type invariant: every decimal value lies between zero and the
    /// representable maximum.
    #[verifier::type_invariant]
    pub open spec fn bounded(self) -> bool {
        0 <= self@ <= MAX_DEC_ATOMICS
    }

    /// The decimal zero.
    pub fn zero() -> (r: Dec)
        ensures
            r@ == 0,
    {
        Dec { atomics: 0 }
    }

    /// The decimal one, i.e. `10^18` atomics.
    pub fn one() -> (r: Dec)
        ensures
            r@ == DEC_FRACTIONAL,
    {
        Dec { atomics: DEC_FRACTIONAL }
    }

    /// Builds a decimal directly from an atomics count.
    pub fn from_atomics(atomics: u128) -> (r: Result<Dec, MixnetContractError>)
        ensures
            atomics <= MAX_DEC_ATOMICS ==> r.is_ok() && r.unwrap()@ == atomics,
            atomics > MAX_DEC_ATOMICS ==> r == Err::<Dec, MixnetContractError>(
                MixnetContractError::DecimalRangeExceeded { amount: atomics },
            ),
    {
        if atomics <= MAX_DEC_ATOMICS {
            Ok(Dec { atomics })
        } else {
            Err(MixnetContractError::DecimalRangeExceeded { amount: atomics })
        }
    }

    /// The atomics count.
    pub fn atomics(self) -> (r: u128)
        ensures
            r == self@,
    {
        self.atomics
    }

    /// Whether the value is exactly zero.
    pub fn is_zero(self) -> (r: bool)
        ensures
            r == (self@ == 0),
    {
        self.atomics == 0
    }

    /// Exact addition. The caller must know that the sum stays
    /// representable.
    pub fn plus(self, other: Dec) -> (r: Dec)
        requires
            self@ + other@ <= MAX_DEC_ATOMICS,
        ensures
            r@ == self@ + other@,
    {
        Dec { atomics: self.atomics + other.atomics }
    }

    /// Exact subtraction. The caller must know that the result stays
    /// non-negative.
    pub fn minus(self, other: Dec) -> (r: Dec)
        requires
            other@ <= self@,
        ensures
            r@ == self@ - other@,
    {
        proof {
            use_type_invariant(self);
        }
        Dec { atomics: self.atomics - other.atomics }
    }

    /// Strict comparison.
    pub fn lt(self, other: Dec) -> (r: bool)
        ensures
            r == (self@ < other@),
    {
        self.atomics < other.atomics
    }

    /// Non-strict comparison.
    pub fn le(self, other: Dec) -> (r: bool)
        ensures
            r == (self@ <= other@),
    {
        self.atomics <= other.atomics
    }

    /// The whole-unit part of the value: `floor(value)`, the truncation
    /// toward zero used by every decimal-to-integer conversion.
    pub fn floor_units(self) -> (r: u128)
        ensures
            r == self@ / (DEC_FRACTIONAL as int),
    {
        self.atomics / DEC_FRACTIONAL
    }
}

/// Ten to the eighteenth power, as needed to relate the long-division loop
/// to the atomics scale.
proof fn lemma_pow10_18()
    ensures
        pow(10, 18) == 1_000_000_000_000_000_000int,
{
    reveal_with_fuel(pow, 19);
}

/// Computes `floor(a * b / 10^18)` without intermediate overflow, by
/// splitting both operands into whole-unit and fractional parts. Returns
/// `None` exactly when the result would exceed the representable maximum.
fn mul_scaled_atomics(a: u128, b: u128) -> (r: Option<u128>)
    requires
        a <= MAX_DEC_ATOMICS,
        b <= MAX_DEC_ATOMICS,
    ensures
        r is Some ==> r.unwrap() == scaled_mul(a as int, b as int) && r.unwrap()
            <= MAX_DEC_ATOMICS,
        r is None ==> scaled_mul(a as int, b as int) > MAX_DEC_ATOMICS,
{
    let e: u128 = DEC_FRACTIONAL;
    let qa = a / e;
    let ra = a % e;
    let qb = b / e;
    let rb = b % e;

    let ghost ai = a as int;
    let ghost bi = b as int;
    let ghost ei = e as int;
    let ghost t3i = ((ra as int) * (rb as int)) / ei;
    proof {
        lemma_fundamental_div_mod(ai, ei);
        lemma_fundamental_div_mod(bi, ei);
        lemma_mod_bound(ai, ei);
        lemma_mod_bound(bi, ei);
        lemma_div_is_ordered(bi, MAX_DEC_ATOMICS as int, ei);
        lemma_div_pos_is_pos(bi, ei);
        assert((ra as int) * (rb as int) < 1_000_000_000_000_000_000_000_000_000_000_000_000int
            && (ra as int) * (qb as int) < 100_000_000_000_000_000_000_000_000_000_000_000_000int
            && 0 <= (ra as int) * (qb as int) && 0 <= (ra as int) * (rb as int))
            by (nonlinear_arith)
            requires
                0 <= (ra as int) < 1_000_000_000_000_000_000int,
                0 <= (rb as int) < 1_000_000_000_000_000_000int,
                0 <= (qb as int) <= 10_000_000_000_000_000_000int,
        ;
        let rr = ((ra as int) * (rb as int)) % ei;
        lemma_fundamental_div_mod((ra as int) * (rb as int), ei);
        lemma_mod_bound((ra as int) * (rb as int), ei);
        lemma_div_pos_is_pos((ra as int) * (rb as int), ei);
        assert(ai * bi == ((qa as int) * bi + (ra as int) * (qb as int) + t3i) * ei + rr)
            by (nonlinear_arith)
            requires
                ai == ei * (qa as int) + (ra as int),
                bi == ei * (qb as int) + (rb as int),
                (ra as int) * (rb as int) == ei * t3i + rr,
        ;
        lemma_fundamental_div_mod_converse(
            ai * bi,
            ei,
            (qa as int) * bi + (ra as int) * (qb as int) + t3i,
            rr,
        );
        lemma_mul_nonnegative(qa as int, bi);
    }

    let t3 = (ra * rb) / e;
    let t2 = ra * qb;
    match qa.checked_mul(b) {
        None => {
            // the result is at least qa * b, which already exceeds u128::MAX
            None
        },
        Some(t1) => {
            match t1.checked_add(t2) {
                None => None,
                Some(s1) => {
                    match s1.checked_add(t3) {
                        None => None,
                        Some(total) => {
                            if total <= MAX_DEC_ATOMICS {
                                Some(total)
                            } else {
                                None
                            }
                        },
                    }
                },
            }
        },
    }
}

/// Computes `floor(a * 10^18 / b)` without intermediate overflow: the
/// quotient's whole part comes from integer division and its eighteen
/// fractional digits from long division in base ten. Returns `None` exactly
/// when the result would exceed the representable maximum.
fn div_scaled_atomics(a: u128, b: u128) -> (r: Option<u128>)
    requires
        1 <= b <= MAX_DEC_ATOMICS,
    ensures
        r is Some ==> r.unwrap() == scaled_div(a as int, b as int) && r.unwrap()
            <= MAX_DEC_ATOMICS,
        r is None ==> scaled_div(a as int, b as int) > MAX_DEC_ATOMICS,
{
    let e: u128 = DEC_FRACTIONAL;
    let qa = a / b;
    let ra = a % b;
    let ghost ai = a as int;
    let ghost bi = b as int;
    let ghost ei = e as int;
    let ghost rai = ra as int;
    proof {
        lemma_fundamental_div_mod(ai, bi);
        lemma_mod_bound(ai, bi);
        lemma_div_pos_is_pos(ai, bi);
        // the loop starts with zero digits produced: pow(10, 0) == 1
        vstd::arithmetic::power::lemma_pow0(10);
        vstd::arithmetic::mul::lemma_mul_basics(rai);
        vstd::arithmetic::div_mod::lemma_small_mod(rai as nat, bi as nat);
        vstd::arithmetic::div_mod::lemma_basic_div(rai, bi);
    }

    let mut acc: u128 = 0;
    let mut rem: u128 = ra;
    let mut i: usize = 0;
    while i < 18
        invariant
            0 <= i <= 18,
            1 <= b <= MAX_DEC_ATOMICS,
            (rem as int) == (rai * pow(10, i as nat)) % bi,
            (acc as int) == (rai * pow(10, i as nat)) / bi,
            (acc as int) < pow(10, i as nat),
            0 <= rem < b,
            0 <= rai < bi,
            bi == b as int,
            rai == ra as int,
            ei == e as int,
        decreases 18 - i,
    {
        let ghost p = pow(10, i as nat);
        let ghost p10 = pow(10, (i + 1) as nat);
        proof {
            lemma_pow_adds(10, i as nat, 1nat);
            lemma_pow1(10);
            assert(p10 == p * 10);
            assert(p >= 1 && p <= pow(10, 18)) by {
                vstd::arithmetic::power::lemma_pow_increases(10, i as nat, 18);
                vstd::arithmetic::power::lemma_pow_positive(10, i as nat);
            }
            lemma_pow10_18();
            // rem * 10 stays below 10^38, so it cannot overflow
            assert((rem as int) * 10 < 100_000_000_000_000_000_000_000_000_000_000_000_000int)
                by (nonlinear_arith)
                requires
                    0 <= (rem as int) < bi,
                    bi <= 10_000_000_000_000_000_000_000_000_000_000_000_000int,
            ;
        }
        let r10 = rem * 10;
        let d = r10 / b;
        let r2 = r10 % b;
        proof {
            lemma_fundamental_div_mod(r10 as int, bi);
            lemma_mod_bound(r10 as int, bi);
            lemma_div_pos_is_pos(r10 as int, bi);
            // the next decimal digit is a single digit
            assert((r10 as int) < bi * 10) by (nonlinear_arith)
                requires
                    (r10 as int) == (rem as int) * 10,
                    0 <= (rem as int) < bi,
            ;
            lemma_multiply_divide_lt(r10 as int, bi, 10);
            // step the long-division state one digit forward
            assert(rai * p10 == ((acc as int) * 10 + (d as int)) * bi + (r2 as int))
                by (nonlinear_arith)
                requires
                    p10 == p * 10,
                    rai * p == (acc as int) * bi + (rem as int),
                    (rem as int) * 10 == (d as int) * bi + (r2 as int),
                    (r10 as int) == (rem as int) * 10,
            ;
            lemma_fundamental_div_mod_converse(
                rai * p10,
                bi,
                (acc as int) * 10 + (d as int),
                r2 as int,
            );
            assert((acc as int) * 10 + (d as int) < p10) by {
                lemma_mul_strict_inequality(rai, bi, p10);
                assert(p10 > 0);
                lemma_multiply_divide_lt(rai * p10, bi, p10);
            }
            assert(rai * p == (acc as int) * bi + (rem as int)) by {
                lemma_fundamental_div_mod(rai * p, bi);
            }
        }
        acc = acc * 10 + d;
        rem = r2;
        i = i + 1;
    }

    proof {
        lemma_pow10_18();
        assert((acc as int) == (rai * ei) / bi && (rem as int) == (rai * ei) % bi);
        lemma_fundamental_div_mod(rai * ei, bi);
        lemma_mod_bound(rai * ei, bi);
        // assemble: a * e == (qa * e + frac) * b + final remainder
        assert(ai * ei == ((qa as int) * ei + (acc as int)) * bi + (rem as int))
            by (nonlinear_arith)
            requires
                ai == bi * (qa as int) + rai,
                rai * ei == (acc as int) * bi + (rem as int),
        ;
        lemma_fundamental_div_mod_converse(
            ai * ei,
            bi,
            (qa as int) * ei + (acc as int),
            rem as int,
        );
    }

    match qa.checked_mul(e) {
        None => None,
        Some(hi) => {
            match hi.checked_add(acc) {
                None => None,
                Some(total) => {
                    if total <= MAX_DEC_ATOMICS {
                        Some(total)
                    } else {
                        None
                    }
                },
            }
        },
    }
}

impl Dec {
    /// Multiplication, truncating the result toward zero at the eighteenth
    /// fractional digit. The caller must know that the product stays
    /// representable.
    pub fn times(self, other: Dec) -> (r: Dec)
        requires
            scaled_mul(self@, other@) <= MAX_DEC_ATOMICS,
        ensures
            r@ == scaled_mul(self@, other@),
    {
        proof {
            use_type_invariant(self);
            use_type_invariant(other);
        }
        match mul_scaled_atomics(self.atomics, other.atomics) {
            Some(atomics) => Dec { atomics },
            None => {
                // unreachable: the precondition bounds the product
                proof {
                    assert(false);
                }
                Dec { atomics: 0 }
            },
        }
    }

    /// Division, truncating the result toward zero at the eighteenth
    /// fractional digit. The divisor must be non-zero and the caller must
    /// know that the quotient stays representable.
    pub fn div_by(self, other: Dec) -> (r: Dec)
        requires
            other@ > 0,
            scaled_div(self@, other@) <= MAX_DEC_ATOMICS,
        ensures
            r@ == scaled_div(self@, other@),
    {
        proof {
            use_type_invariant(self);
            use_type_invariant(other);
        }
        match div_scaled_atomics(self.atomics, other.atomics) {
            Some(atomics) => Dec { atomics },
            None => {
                // unreachable: the precondition bounds the quotient
                proof {
                    assert(false);
                }
                Dec { atomics: 0 }
            },
        }
    }

    /// Builds the decimal value of the fraction `numerator / denominator`
    /// of integer amounts, truncating toward zero at the eighteenth
    /// fractional digit.
    pub fn from_ratio(numerator: u128, denominator: u128) -> (r: Dec)
        requires
            1 <= denominator <= MAX_DEC_ATOMICS,
            scaled_div(numerator as int, denominator as int) <= MAX_DEC_ATOMICS,
        ensures
            r@ == scaled_div(numerator as int, denominator as int),
    {
        match div_scaled_atomics(numerator, denominator) {
            Some(atomics) => Dec { atomics },
            None => {
                // unreachable: the precondition bounds the quotient
                proof {
                    assert(false);
                }
                Dec { atomics: 0 }
            },
        }
    }
}

/// The product of non-negative decimals is non-negative.
pub proof fn lemma_scaled_mul_nonneg(a: int, b: int)
    requires
        0 <= a,
        0 <= b,
    ensures
        0 <= scaled_mul(a, b),
{
    lemma_mul_nonnegative(a, b);
    lemma_div_pos_is_pos(a * b, DEC_FRACTIONAL as int);
}

/// Multiplying by a factor of at most one never increases a non-negative
/// value.
pub proof fn lemma_scaled_mul_le_left(a: int, b: int)
    requires
        0 <= a,
        0 <= b <= DEC_FRACTIONAL,
    ensures
        scaled_mul(a, b) <= a,
{
    let e = DEC_FRACTIONAL as int;
    assert(a * b <= a * e) by (nonlinear_arith)
        requires
            0 <= a,
            b <= e,
    ;
    lemma_div_is_ordered(a * b, a * e, e);
    vstd::arithmetic::div_mod::lemma_div_multiples_vanish(a, e);
    assert(a * e == e * a) by (nonlinear_arith);
}

/// Multiplication is monotone in its left operand.
pub proof fn lemma_scaled_mul_monotone(a1: int, a2: int, b: int)
    requires
        a1 <= a2,
        0 <= b,
    ensures
        scaled_mul(a1, b) <= scaled_mul(a2, b),
{
    vstd::arithmetic::mul::lemma_mul_inequality(a1, a2, b);
    lemma_div_is_ordered(a1 * b, a2 * b, DEC_FRACTIONAL as int);
}

/// Multiplication of decimals is commutative.
pub proof fn lemma_scaled_mul_comm(a: int, b: int)
    ensures
        scaled_mul(a, b) == scaled_mul(b, a),
{
    assert(a * b == b * a) by (nonlinear_arith);
}

/// Two decimals with the same mathematical value are the same value.
pub proof fn lemma_dec_view_injective(a: Dec, b: Dec)
    requires
        a@ == b@,
    ensures
        a == b,
{
}

/// Multiplying by exactly one is exact.
pub proof fn lemma_scaled_mul_identity(a: int)
    ensures
        scaled_mul(a, DEC_FRACTIONAL as int) == a,
{
    let e = DEC_FRACTIONAL as int;
    vstd::arithmetic::div_mod::lemma_div_multiples_vanish(a, e);
    assert(a * e == e * a) by (nonlinear_arith);
}

/// Dividing a positive value by itself gives exactly one.
pub proof fn lemma_scaled_div_identity(a: int)
    requires
        0 < a,
    ensures
        scaled_div(a, a) == DEC_FRACTIONAL,
{
    let e = DEC_FRACTIONAL as int;
    vstd::arithmetic::div_mod::lemma_div_multiples_vanish(e, a);
    assert(a * e == e * a) by (nonlinear_arith);
}

/// The quotient of non-negative decimals is non-negative.
pub proof fn lemma_scaled_div_nonneg(a: int, b: int)
    requires
        0 <= a,
        0 < b,
    ensures
        0 <= scaled_div(a, b),
{
    lemma_mul_nonnegative(a, DEC_FRACTIONAL as int);
    lemma_div_pos_is_pos(a * (DEC_FRACTIONAL as int), b);
}

/// Dividing a value by something at least as large yields at most one.
pub proof fn lemma_scaled_div_le_one(a: int, b: int)
    requires
        0 <= a <= b,
        0 < b,
    ensures
        scaled_div(a, b) <= DEC_FRACTIONAL,
{
    let e = DEC_FRACTIONAL as int;
    vstd::arithmetic::mul::lemma_mul_inequality(a, b, e);
    lemma_div_is_ordered(a * e, b * e, b);
    vstd::arithmetic::div_mod::lemma_div_multiples_vanish(e, b);
    assert(b * e == e * b) by (nonlinear_arith);
}

/// Division is monotone in its numerator.
pub proof fn lemma_scaled_div_monotone(a1: int, a2: int, b: int)
    requires
        a1 <= a2,
        0 < b,
    ensures
        scaled_div(a1, b) <= scaled_div(a2, b),
{
    vstd::arithmetic::mul::lemma_mul_inequality(a1, a2, DEC_FRACTIONAL as int);
    lemma_div_is_ordered(a1 * (DEC_FRACTIONAL as int), a2 * (DEC_FRACTIONAL as int), b);
}

/// Dividing by a value of at least one never increases a non-negative
/// value.
pub proof fn lemma_scaled_div_le_self(a: int, b: int)
    requires
        0 <= a,
        DEC_FRACTIONAL <= b,
    ensures
        scaled_div(a, b) <= a,
{
    let e = DEC_FRACTIONAL as int;
    lemma_mul_nonnegative(a, e);
    vstd::arithmetic::div_mod::lemma_div_is_ordered_by_denominator(a * e, e, b);
    vstd::arithmetic::div_mod::lemma_div_multiples_vanish(a, e);
    assert(a * e == e * a) by (nonlinear_arith);
}

/// Converts an integer token amount to its decimal value, scaling by
/// `10^18`. Fails when the amount is too large for the decimal domain.
pub fn into_base_decimal(amount: u128) -> (r: Result<Dec, MixnetContractError>)
    ensures
        amount * DEC_FRACTIONAL <= MAX_DEC_ATOMICS ==> r.is_ok() && r.unwrap()@ == amount
            * DEC_FRACTIONAL,
        amount * DEC_FRACTIONAL > MAX_DEC_ATOMICS ==> r == Err::<Dec, MixnetContractError>(
            MixnetContractError::DecimalRangeExceeded { amount },
        ),
{
    if amount <= MAX_DEC_ATOMICS / DEC_FRACTIONAL {
        assert(amount * DEC_FRACTIONAL <= MAX_DEC_ATOMICS) by (nonlinear_arith)
            requires
                amount <= MAX_DEC_ATOMICS / DEC_FRACTIONAL,
                MAX_DEC_ATOMICS / DEC_FRACTIONAL == 10_000_000_000_000_000_000u128,
                DEC_FRACTIONAL == 1_000_000_000_000_000_000u128,
                MAX_DEC_ATOMICS == 10_000_000_000_000_000_000_000_000_000_000_000_000u128,
        ;
        Ok(Dec { atomics: amount * DEC_FRACTIONAL })
    } else {
        assert(amount * DEC_FRACTIONAL > MAX_DEC_ATOMICS) by (nonlinear_arith)
            requires
                amount > MAX_DEC_ATOMICS / DEC_FRACTIONAL,
                MAX_DEC_ATOMICS / DEC_FRACTIONAL == 10_000_000_000_000_000_000u128,
                DEC_FRACTIONAL == 1_000_000_000_000_000_000u128,
                MAX_DEC_ATOMICS == 10_000_000_000_000_000_000_000_000_000_000_000_000u128,
        ;
        Err(MixnetContractError::DecimalRangeExceeded { amount })
    }
}

} // verus!

//! Fixed-point and per-thing arithmetic of `sp_arithmetic`, as used by the
//! investments pallet: `Perquintill` fractions of amounts and `FixedU128`
//! prices.

use vstd::prelude::*;
use sp_arithmetic::FixedPointNumber;

verus! {

/// `Perquintill::ACCURACY`: the parts that make up one whole.
pub const PERQUINTILL_ACCURACY: u64 = 1_000_000_000_000_000_000u64;

/// `FixedU128::DIV`: the inner value that stands for one.
pub const FIXED_DIV: u128 = 1_000_000_000_000_000_000u128;

/// The floor of `x * parts / ACCURACY`.
pub open spec fn spec_mul_floor(parts: u64, x: u128) -> int {
    (x as int * parts as int) / (PERQUINTILL_ACCURACY as int)
}

/// The inner value of the reciprocal of a non-zero price, rounded down.
pub open spec fn spec_reciprocal(inner: u128) -> int {
    (FIXED_DIV as int * FIXED_DIV as int) / (inner as int)
}

/// The product of a price and an integer, rounded down.
pub open spec fn spec_mul_int(inner: u128, n: u128) -> int {
    (inner as int * n as int) / (FIXED_DIV as int)
}

/// A fraction in parts per quintillion, never above one whole.
#[derive(Clone, Copy, Debug, PartialEq, Eq)]
pub struct Perquintill {
    parts: u64,
}

impl Perquintill {
    #[verifier::type_invariant]
    spec fn within_accuracy(self) -> bool {
        self.parts <= PERQUINTILL_ACCURACY
    }

    /// The parts of this fraction.
    pub closed spec fn spec_parts(self) -> u64 {
        self.parts
    }

    /// The fraction of `parts` parts, capped at one whole.
    pub fn from_parts(parts: u64) -> (r: Perquintill)
        ensures
            r.spec_parts() == if parts <= PERQUINTILL_ACCURACY { parts } else { PERQUINTILL_ACCURACY },
    {
        if parts <= PERQUINTILL_ACCURACY {
            Perquintill { parts }
        } else {
            Perquintill { parts: PERQUINTILL_ACCURACY }
        }
    }

    /// The parts of this fraction.
    pub fn deconstruct(&self) -> (r: u64)
        ensures
            r == self.spec_parts(),
            r <= PERQUINTILL_ACCURACY,
    {
        proof {
            use_type_invariant(self);
        }
        self.parts
    }

    /// This fraction of `x`, rounded down.
    pub fn mul_floor(&self, x: u128) -> (r: u128)
        ensures
            r == spec_mul_floor(self.spec_parts(), x),
    {
        let parts = self.deconstruct();
        perquintill_mul_floor(parts, x)
    }
}

/// An unsigned fixed-point number with eighteen decimals, by its inner value.
#[derive(Clone, Copy, Debug, PartialEq, Eq)]
pub struct FixedU128 {
    pub inner: u128,
}

impl FixedU128 {
    /// The number whose inner value is `inner`.
    pub fn from_inner(inner: u128) -> (r: FixedU128)
        ensures
            r.inner == inner,
    {
        FixedU128 { inner }
    }

    /// `1 / self`, or `None` for zero.
    pub fn reciprocal(&self) -> (r: Option<FixedU128>)
        ensures
            self.inner == 0 ==> r is None,
            self.inner != 0 ==> r == Some(FixedU128 { inner: spec_reciprocal(self.inner) as u128 }),
    {
        match fixed_reciprocal(self.inner) {
            Some(inner) => Some(FixedU128 { inner }),
            None => None,
        }
    }

    /// `self * n`, rounded down, or `None` where it exceeds `u128`.
    pub fn checked_mul_int(&self, n: u128) -> (r: Option<u128>)
        ensures
            spec_mul_int(self.inner, n) <= u128::MAX ==> r == Some(spec_mul_int(self.inner, n) as u128),
            spec_mul_int(self.inner, n) > u128::MAX ==> r is None,
    {
        fixed_checked_mul_int(self.inner, n)
    }
}

/// `sp_arithmetic::Perquintill::mul_floor`, on the fraction of `parts` parts.
///
/// Trusted: for parts within the accuracy, sp_arithmetic computes
/// `(x / ACCURACY) * parts + (x % ACCURACY) * parts / ACCURACY`, which is
/// the floor of `x * parts / ACCURACY`.
#[verifier::external_body]
fn perquintill_mul_floor(parts: u64, x: u128) -> (r: u128)
    requires
        parts <= PERQUINTILL_ACCURACY,
    ensures
        r == spec_mul_floor(parts, x),
{
    sp_arithmetic::Perquintill::from_parts(parts).mul_floor(x)
}

/// `sp_arithmetic::FixedU128::reciprocal`, on the number of inner value
/// `inner`, taken back to its inner value.
///
/// Trusted: sp_arithmetic returns `None` for zero and otherwise
/// `multiply_by_rational_with_rounding(DIV, DIV, inner, Down)`, whose value
/// `DIV * DIV / inner` always fits in `u128`.
#[verifier::external_body]
fn fixed_reciprocal(inner: u128) -> (r: Option<u128>)
    ensures
        inner == 0 ==> r is None,
        inner != 0 ==> r == Some(spec_reciprocal(inner) as u128),
{
    sp_arithmetic::FixedU128::from_inner(inner).reciprocal().map(|f| f.into_inner())
}

/// `sp_arithmetic::FixedU128::checked_mul_int`, on the number of inner value
/// `inner`.
///
/// Trusted: sp_arithmetic computes `inner * n / DIV` rounded down on a
/// 256-bit intermediate and returns `None` exactly when it exceeds `u128`.
#[verifier::external_body]
fn fixed_checked_mul_int(inner: u128, n: u128) -> (r: Option<u128>)
    ensures
        spec_mul_int(inner, n) <= u128::MAX ==> r == Some(spec_mul_int(inner, n) as u128),
        spec_mul_int(inner, n) > u128::MAX ==> r is None,
{
    sp_arithmetic::FixedU128::from_inner(inner).checked_mul_int(n)
}

} // verus!

//! Comparison of integer vectors within an absolute tolerance, one
//! component at a time, on top of the approx crate's scalar comparison.
use vstd::prelude::*;

use crate::vector::Vector2;

verus! {

/// Whether the difference `a - b`, and its absolute value, are 32-bit
/// integers, as the scalar comparison needs.
pub open spec fn diff_fits(a: i32, b: i32) -> bool {
    i32::MIN < a - b <= i32::MAX
}

/// Whether `a` and `b` lie at most `epsilon` apart.
pub open spec fn within(a: int, b: int, epsilon: int) -> bool {
    -epsilon <= a - b <= epsilon
}

/// Whether both components of `a` and `b` lie at most `epsilon` apart.
pub open spec fn abs_diff_eq_spec(a: Vector2<i32>, b: Vector2<i32>, epsilon: i32) -> bool {
    within(a.x as int, b.x as int, epsilon as int) && within(a.y as int, b.y as int, epsilon as int)
}

/// Relies on approx's `AbsDiffEq::default_epsilon` for `i32`, which is zero.
#[verifier::external_body]
fn scalar_default_epsilon() -> (r: i32)
    ensures
        r == 0,
{
    <i32 as approx::AbsDiffEq>::default_epsilon()
}

/// Relies on approx's `AbsDiffEq::abs_diff_eq` for `i32`, which tests
/// `(a - b).abs() <= epsilon`; the subtraction and the absolute value must
/// not overflow.
#[verifier::external_body]
fn scalar_abs_diff_eq(a: i32, b: i32, epsilon: i32) -> (r: bool)
    requires
        diff_fits(a, b),
    ensures
        r == within(a as int, b as int, epsilon as int),
{
    <i32 as approx::AbsDiffEq>::abs_diff_eq(&a, &b, epsilon)
}

impl Vector2<i32> {
    /// The default tolerance of the absolute comparison: the scalar's own,
    /// which for integers is zero.
    pub fn default_epsilon() -> (r: i32)
        ensures
            r == 0,
    {
        scalar_default_epsilon()
    }

    /// Whether both components of `self` and `other` lie at most `epsilon`
    /// apart.
    pub fn abs_diff_eq(&self, other: &Self, epsilon: i32) -> (r: bool)
        requires
            diff_fits(self.x, other.x),
            diff_fits(self.y, other.y),
        ensures
            r == abs_diff_eq_spec(*self, *other, epsilon),
    {
        scalar_abs_diff_eq(self.x, other.x, epsilon) && scalar_abs_diff_eq(self.y, other.y, epsilon)
    }

    /// The negation of [`Self::abs_diff_eq`].
    pub fn abs_diff_ne(&self, other: &Self, epsilon: i32) -> (r: bool)
        requires
            diff_fits(self.x, other.x),
            diff_fits(self.y, other.y),
        ensures
            r == !abs_diff_eq_spec(*self, *other, epsilon),
    {
        !self.abs_diff_eq(other, epsilon)
    }
}

/// Every vector equals itself within any tolerance that is not negative,
/// and in particular within the default one.
pub proof fn lemma_abs_diff_eq_reflexive(a: Vector2<i32>, epsilon: i32)
    requires
        epsilon >= 0,
    ensures
        diff_fits(a.x, a.x) && diff_fits(a.y, a.y),
        abs_diff_eq_spec(a, a, epsilon),
{
}

/// Two vectors that differ in a component are not equal within the default
/// tolerance.
pub proof fn lemma_abs_diff_eq_default_separates(a: Vector2<i32>, b: Vector2<i32>)
    requires
        a.x != b.x || a.y != b.y,
    ensures
        !abs_diff_eq_spec(a, b, 0),
{
}

} // verus!

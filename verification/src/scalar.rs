//! The numbers the algorithms compute with.
use vstd::prelude::*;

verus! {

/// A number type with the arithmetic that the update rules need.
///
/// Every operation is a function of its operands: the executable method
/// returns exactly the value that its specification counterpart names. No
/// algebraic law (associativity, distributivity, identities) is assumed, so
/// that a rounding implementation satisfies the interface; contracts built on
/// it therefore fix the order in which operations are applied.
pub trait Scalar: Sized + Copy {
    /// The additive identity.
    spec fn spec_zero() -> Self;

    /// The multiplicative identity.
    spec fn spec_one() -> Self;

    /// The scalar closest to `mantissa / 10^places`.
    spec fn spec_from_decimal(mantissa: i64, places: u32) -> Self;

    /// The scalar closest to the count `n`.
    spec fn spec_from_count(n: usize) -> Self;

    /// The least finite scalar.
    spec fn spec_lowest() -> Self;

    /// Sum.
    spec fn spec_plus(self, rhs: Self) -> Self;

    /// Difference.
    spec fn spec_minus(self, rhs: Self) -> Self;

    /// Product.
    spec fn spec_times(self, rhs: Self) -> Self;

    /// Quotient.
    spec fn spec_over(self, rhs: Self) -> Self;

    /// Additive inverse.
    spec fn spec_negated(self) -> Self;

    /// Absolute value.
    spec fn spec_magnitude(self) -> Self;

    /// Natural exponential.
    spec fn spec_exp(self) -> Self;

    /// Strict order; false whenever the operands are unordered.
    spec fn spec_less(self, rhs: Self) -> bool;

    /// Numeric equality.
    spec fn spec_same(self, rhs: Self) -> bool;

    /// Returns the additive identity.
    fn zero() -> (r: Self)
        ensures
            r == Self::spec_zero(),
    ;

    /// Returns the multiplicative identity.
    fn one() -> (r: Self)
        ensures
            r == Self::spec_one(),
    ;

    /// Returns the scalar closest to `mantissa / 10^places`.
    fn from_decimal(mantissa: i64, places: u32) -> (r: Self)
        ensures
            r == Self::spec_from_decimal(mantissa, places),
    ;

    /// Returns the scalar closest to the count `n`.
    fn from_count(n: usize) -> (r: Self)
        ensures
            r == Self::spec_from_count(n),
    ;

    /// Returns the least finite scalar.
    fn lowest() -> (r: Self)
        ensures
            r == Self::spec_lowest(),
    ;

    /// Returns `self + rhs`.
    fn plus(self, rhs: Self) -> (r: Self)
        ensures
            r == self.spec_plus(rhs),
    ;

    /// Returns `self - rhs`.
    fn minus(self, rhs: Self) -> (r: Self)
        ensures
            r == self.spec_minus(rhs),
    ;

    /// Returns `self * rhs`.
    fn times(self, rhs: Self) -> (r: Self)
        ensures
            r == self.spec_times(rhs),
    ;

    /// Returns `self / rhs`.
    fn over(self, rhs: Self) -> (r: Self)
        ensures
            r == self.spec_over(rhs),
    ;

    /// Returns `-self`.
    fn negated(self) -> (r: Self)
        ensures
            r == self.spec_negated(),
    ;

    /// Returns the absolute value of `self`.
    fn magnitude(self) -> (r: Self)
        ensures
            r == self.spec_magnitude(),
    ;

    /// Returns the natural exponential of `self`.
    fn exp(self) -> (r: Self)
        ensures
            r == self.spec_exp(),
    ;

    /// Returns whether `self < rhs`.
    fn less(self, rhs: Self) -> (b: bool)
        ensures
            b == self.spec_less(rhs),
    ;

    /// Returns whether `self` and `rhs` are numerically equal.
    fn same(self, rhs: Self) -> (b: bool)
        ensures
            b == self.spec_same(rhs),
    ;
}

/// The larger of two scalars. A scalar that is not a number does not equal
/// itself; where the first operand is such a scalar the result is the
/// second, and where only the second is, the result is the first.
pub open spec fn spec_larger<R: Scalar>(a: R, b: R) -> R {
    if a.spec_less(b) {
        b
    } else if a.spec_same(a) {
        a
    } else {
        b
    }
}

/// Returns the larger of two scalars, and the other one where one of them
/// is not a number.
pub fn larger<R: Scalar>(a: R, b: R) -> (r: R)
    ensures
        r == spec_larger(a, b),
{
    if a.less(b) {
        b
    } else if a.same(a) {
        a
    } else {
        b
    }
}

} // verus!

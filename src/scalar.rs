//! The capabilities that a scalar type needs to carry a dual number.
use vstd::prelude::*;

verus! {

/// A real-number representation: units, the four arithmetic operations,
/// negation, absolute value, sign, square root and the elementary functions.
///
/// Each operation has a spec function that names its result, so that code
/// generic over `Real` can state exactly which operations produced a value.
/// What happens outside an operation's domain (a logarithm of a negative
/// number, a division by zero) is the representation's own affair.
pub trait Real: Sized + Copy {
    /// The additive unit.
    spec fn spec_zero() -> Self;

    /// The multiplicative unit.
    spec fn spec_one() -> Self;

    /// The sum of `self` and `o`.
    spec fn spec_plus(self, o: Self) -> Self;

    /// The difference of `self` and `o`.
    spec fn spec_minus(self, o: Self) -> Self;

    /// The product of `self` and `o`.
    spec fn spec_times(self, o: Self) -> Self;

    /// The quotient of `self` and `o`.
    spec fn spec_over(self, o: Self) -> Self;

    /// The negation of `self`.
    spec fn spec_negate(self) -> Self;

    /// The absolute value of `self`.
    spec fn spec_abs(self) -> Self;

    /// The sign of `self`.
    spec fn spec_signum(self) -> Self;

    /// The square root of `self`.
    spec fn spec_sqrt(self) -> Self;

    /// The exponential of `self`.
    spec fn spec_exp(self) -> Self;

    /// The natural logarithm of `self`.
    spec fn spec_ln(self) -> Self;

    /// The sine of `self`.
    spec fn spec_sin(self) -> Self;

    /// The cosine of `self`.
    spec fn spec_cos(self) -> Self;

    /// The tangent of `self`.
    spec fn spec_tan(self) -> Self;

    /// The arc sine of `self`.
    spec fn spec_asin(self) -> Self;

    /// The arc cosine of `self`.
    spec fn spec_acos(self) -> Self;

    /// The arc tangent of `self`.
    spec fn spec_atan(self) -> Self;

    /// The hyperbolic sine of `self`.
    spec fn spec_sinh(self) -> Self;

    /// The hyperbolic cosine of `self`.
    spec fn spec_cosh(self) -> Self;

    /// The hyperbolic tangent of `self`.
    spec fn spec_tanh(self) -> Self;

    /// The inverse hyperbolic sine of `self`.
    spec fn spec_asinh(self) -> Self;

    /// The inverse hyperbolic tangent of `self`.
    spec fn spec_atanh(self) -> Self;

    fn zero() -> (r: Self)
        ensures
            r == Self::spec_zero(),
    ;

    fn one() -> (r: Self)
        ensures
            r == Self::spec_one(),
    ;

    fn plus(self, o: Self) -> (r: Self)
        ensures
            r == self.spec_plus(o),
    ;

    fn minus(self, o: Self) -> (r: Self)
        ensures
            r == self.spec_minus(o),
    ;

    fn times(self, o: Self) -> (r: Self)
        ensures
            r == self.spec_times(o),
    ;

    fn over(self, o: Self) -> (r: Self)
        ensures
            r == self.spec_over(o),
    ;

    fn negate(self) -> (r: Self)
        ensures
            r == self.spec_negate(),
    ;

    fn abs(self) -> (r: Self)
        ensures
            r == self.spec_abs(),
    ;

    fn signum(self) -> (r: Self)
        ensures
            r == self.spec_signum(),
    ;

    fn sqrt(self) -> (r: Self)
        ensures
            r == self.spec_sqrt(),
    ;

    fn exp(self) -> (r: Self)
        ensures
            r == self.spec_exp(),
    ;

    fn ln(self) -> (r: Self)
        ensures
            r == self.spec_ln(),
    ;

    fn sin(self) -> (r: Self)
        ensures
            r == self.spec_sin(),
    ;

    fn cos(self) -> (r: Self)
        ensures
            r == self.spec_cos(),
    ;

    fn tan(self) -> (r: Self)
        ensures
            r == self.spec_tan(),
    ;

    fn asin(self) -> (r: Self)
        ensures
            r == self.spec_asin(),
    ;

    fn acos(self) -> (r: Self)
        ensures
            r == self.spec_acos(),
    ;

    fn atan(self) -> (r: Self)
        ensures
            r == self.spec_atan(),
    ;

    fn sinh(self) -> (r: Self)
        ensures
            r == self.spec_sinh(),
    ;

    fn cosh(self) -> (r: Self)
        ensures
            r == self.spec_cosh(),
    ;

    fn tanh(self) -> (r: Self)
        ensures
            r == self.spec_tanh(),
    ;

    fn asinh(self) -> (r: Self)
        ensures
            r == self.spec_asinh(),
    ;

    fn atanh(self) -> (r: Self)
        ensures
            r == self.spec_atanh(),
    ;
}

} // verus!

//! The dual-number type and its differentiation rules.
use vstd::prelude::*;

use std::ops::MulAssign;

use crate::scalar::Real;

verus! {

/// A value together with its derivative ("gradient") with respect to one
/// independent variable.
///
/// Seed the variable of differentiation as `Dual { real: x, grad: 1 }`,
/// compose the operations below, and read the function's value and its
/// derivative at `x` off the result.
#[derive(Debug, Clone, PartialEq, Copy)]
pub struct Dual<R: Real> {
    pub real: R,
    pub grad: R,
}

/// `signum(x).abs()`: the unit that the inverse-function rules below use.
/// It is the unit wherever the sign is a unit, and zero where the sign is.
pub open spec fn sign_unit<R: Real>(x: R) -> R {
    x.spec_signum().spec_abs()
}

fn sign_unit_of<R: Real>(x: R) -> (r: R)
    ensures
        r == sign_unit(x),
{
    x.signum().abs()
}

impl<R: Real> Dual<R> {
    /// Linearity: values and derivatives add.
    pub open spec fn sum(self, o: Self) -> Self {
        Dual { real: self.real.spec_plus(o.real), grad: self.grad.spec_plus(o.grad) }
    }

    /// Linearity: values and derivatives subtract.
    pub open spec fn difference(self, o: Self) -> Self {
        Dual { real: self.real.spec_minus(o.real), grad: self.grad.spec_minus(o.grad) }
    }

    /// The product rule.
    pub open spec fn product(self, o: Self) -> Self {
        Dual {
            real: self.real.spec_times(o.real),
            grad: self.real.spec_times(o.grad).spec_plus(self.grad.spec_times(o.real)),
        }
    }

    /// The quotient as this engine defines it: the value is `a / b`, the
    /// derivative `a' / b + a / b'`, which is not the textbook quotient rule.
    pub open spec fn quotient(self, o: Self) -> Self {
        Dual {
            real: self.real.spec_over(o.real),
            grad: self.grad.spec_over(o.real).spec_plus(self.real.spec_over(o.grad)),
        }
    }

    /// Negation as this engine defines it: the two parts trade places, each
    /// negated.
    pub open spec fn negation(self) -> Self {
        Dual { real: self.grad.spec_negate(), grad: self.real.spec_negate() }
    }

    /// `self` multiplied by itself: the unit `(1, 0)` for `n == 0`, `self` for
    /// `n == 1`, and one more factor of `self` for each further step.
    pub open spec fn power(self, n: nat) -> Self
        decreases n,
    {
        if n == 0 {
            Dual { real: R::spec_one(), grad: R::spec_zero() }
        } else if n == 1 {
            self
        } else {
            self.power((n - 1) as nat).product(self)
        }
    }

    /// The value.
    pub fn real_part(self) -> (r: R)
        ensures
            r == self.real,
    {
        self.real
    }

    /// The derivative accumulated so far.
    pub fn grad(self) -> (r: R)
        ensures
            r == self.grad,
    {
        self.grad
    }

    /// `self` raised to the natural power `n` by repeated multiplication.
    pub fn pow(self, n: usize) -> (r: Self)
        ensures
            r == self.power(n as nat),
    {
        if n == 0 {
            return Dual { real: R::one(), grad: R::zero() };
        }
        let mut result = self;
        let mut i: usize = 1;
        while i < n
            invariant
                1 <= i <= n,
                result == self.power(i as nat),
            decreases n - i,
        {
            result.mul_assign(self);
            i = i + 1;
        }
        result
    }

    /// `|x|`, with derivative `x' * signum(x)`.
    pub fn abs(self) -> (r: Self)
        ensures
            r.real == self.real.spec_abs(),
            r.grad == self.grad.spec_times(self.real.spec_signum()),
    {
        Dual { real: self.real.abs(), grad: self.grad.times(self.real.signum()) }
    }

    /// `exp(x)`, with derivative `x' * exp(x)`.
    pub fn exp(self) -> (r: Self)
        ensures
            r.real == self.real.spec_exp(),
            r.grad == self.grad.spec_times(self.real.spec_exp()),
    {
        Dual { real: self.real.exp(), grad: self.grad.times(self.real.exp()) }
    }

    /// `ln(x)`, with derivative `x' / x`.
    pub fn ln(self) -> (r: Self)
        ensures
            r.real == self.real.spec_ln(),
            r.grad == self.grad.spec_over(self.real),
    {
        Dual { real: self.real.ln(), grad: self.grad.over(self.real) }
    }

    /// `sin(x)`, with derivative `x' * cos(x)`.
    pub fn sin(self) -> (r: Self)
        ensures
            r.real == self.real.spec_sin(),
            r.grad == self.grad.spec_times(self.real.spec_cos()),
    {
        Dual { real: self.real.sin(), grad: self.grad.times(self.real.cos()) }
    }

    /// `cos(x)`, with derivative `-x' * sin(x)`.
    pub fn cos(self) -> (r: Self)
        ensures
            r.real == self.real.spec_cos(),
            r.grad == self.grad.spec_negate().spec_times(self.real.spec_sin()),
    {
        Dual { real: self.real.cos(), grad: self.grad.negate().times(self.real.sin()) }
    }

    /// `tan(x)`, with derivative `x' / (cos(x) * cos(x))`.
    pub fn tan(self) -> (r: Self)
        ensures
            r.real == self.real.spec_tan(),
            r.grad == self.grad.spec_over(self.real.spec_cos().spec_times(self.real.spec_cos())),
    {
        let c = self.real.cos();
        Dual { real: self.real.tan(), grad: self.grad.over(c.times(c)) }
    }

    /// `asin(x)`, with derivative `x' / sqrt(u - x * x)`, `u` the sign unit of `x`.
    pub fn asin(self) -> (r: Self)
        ensures
            r.real == self.real.spec_asin(),
            r.grad == self.grad.spec_over(
                sign_unit(self.real).spec_minus(self.real.spec_times(self.real)).spec_sqrt(),
            ),
    {
        let u = sign_unit_of(self.real);
        Dual {
            real: self.real.asin(),
            grad: self.grad.over(u.minus(self.real.times(self.real)).sqrt()),
        }
    }

    /// `acos(x)`, with derivative `-x' / sqrt(u - x * x)`, `u` the sign unit of `x`.
    pub fn acos(self) -> (r: Self)
        ensures
            r.real == self.real.spec_acos(),
            r.grad == self.grad.spec_negate().spec_over(
                sign_unit(self.real).spec_minus(self.real.spec_times(self.real)).spec_sqrt(),
            ),
    {
        let u = sign_unit_of(self.real);
        Dual {
            real: self.real.acos(),
            grad: self.grad.negate().over(u.minus(self.real.times(self.real)).sqrt()),
        }
    }

    /// `atan(x)`, with derivative `x' / (u + x * x)`, `u` the sign unit of `x`.
    pub fn atan(self) -> (r: Self)
        ensures
            r.real == self.real.spec_atan(),
            r.grad == self.grad.spec_over(sign_unit(self.real).spec_plus(self.real.spec_times(self.real))),
    {
        let u = sign_unit_of(self.real);
        Dual { real: self.real.atan(), grad: self.grad.over(u.plus(self.real.times(self.real))) }
    }

    /// `sinh(x)`, with derivative `x' * cosh(x)`.
    pub fn sinh(self) -> (r: Self)
        ensures
            r.real == self.real.spec_sinh(),
            r.grad == self.grad.spec_times(self.real.spec_cosh()),
    {
        Dual { real: self.real.sinh(), grad: self.grad.times(self.real.cosh()) }
    }

    /// `cosh(x)`, with derivative `x' * sinh(x)`.
    pub fn cosh(self) -> (r: Self)
        ensures
            r.real == self.real.spec_cosh(),
            r.grad == self.grad.spec_times(self.real.spec_sinh()),
    {
        Dual { real: self.real.cosh(), grad: self.grad.times(self.real.sinh()) }
    }

    /// `tanh(x)`, with derivative `x' * (e - f) / (e + f)`, where `e = exp(x)`
    /// and `f = exp(-x)`.
    pub fn tanh(self) -> (r: Self)
        ensures
            r.real == self.real.spec_tanh(),
            r.grad == ({
                let e = self.real.spec_exp();
                let f = self.real.spec_negate().spec_exp();
                self.grad.spec_times(e.spec_minus(f)).spec_over(e.spec_plus(f))
            }),
    {
        let e = self.real.exp();
        let f = self.real.negate().exp();
        Dual { real: self.real.tanh(), grad: self.grad.times(e.minus(f)).over(e.plus(f)) }
    }

    /// `asinh(x)`, with derivative `x' / sqrt(u + x * x)`, `u` the sign unit of `x`.
    pub fn asinh(self) -> (r: Self)
        ensures
            r.real == self.real.spec_asinh(),
            r.grad == self.grad.spec_over(
                sign_unit(self.real).spec_plus(self.real.spec_times(self.real)).spec_sqrt(),
            ),
    {
        let u = sign_unit_of(self.real);
        Dual {
            real: self.real.asinh(),
            grad: self.grad.over(u.plus(self.real.times(self.real)).sqrt()),
        }
    }

    /// The value part is the arc cosine `acos(x)` (not `acosh(x)`); the
    /// derivative is `x' / sqrt(-u + x * x)`, `u` the sign unit of `x`.
    pub fn acosh(self) -> (r: Self)
        ensures
            r.real == self.real.spec_acos(),
            r.grad == self.grad.spec_over(
                sign_unit(self.real).spec_negate().spec_plus(self.real.spec_times(self.real)).spec_sqrt(),
            ),
    {
        let u = sign_unit_of(self.real);
        Dual {
            real: self.real.acos(),
            grad: self.grad.over(u.negate().plus(self.real.times(self.real)).sqrt()),
        }
    }

    /// `atanh(x)`, with derivative `x' / (u - x * x)`, `u` the sign unit of `x`.
    pub fn atanh(self) -> (r: Self)
        ensures
            r.real == self.real.spec_atanh(),
            r.grad == self.grad.spec_over(sign_unit(self.real).spec_minus(self.real.spec_times(self.real))),
    {
        let u = sign_unit_of(self.real);
        Dual { real: self.real.atanh(), grad: self.grad.over(u.minus(self.real.times(self.real))) }
    }
}

/// Linearity: the derivative of a sum is the sum of the derivatives, and the
/// derivative of a difference is the difference of the derivatives.
pub proof fn lemma_linearity<R: Real>(a: Dual<R>, b: Dual<R>)
    ensures
        a.sum(b).grad == a.grad.spec_plus(b.grad),
        a.difference(b).grad == a.grad.spec_minus(b.grad),
{
}

/// The product rule: the derivative of `a * b` is `a.real * b.grad + a.grad * b.real`.
pub proof fn lemma_product_rule<R: Real>(a: Dual<R>, b: Dual<R>)
    ensures
        a.product(b).grad == a.real.spec_times(b.grad).spec_plus(a.grad.spec_times(b.real)),
{
}

impl<R: Real> std::ops::Add for Dual<R> {
    type Output = Dual<R>;

    fn add(self, other: Self) -> (r: Dual<R>)
        ensures
            r == self.sum(other),
    {
        Dual { real: self.real.plus(other.real), grad: self.grad.plus(other.grad) }
    }
}

impl<R: Real> vstd::std_specs::ops::AddSpecImpl for Dual<R> {
    open spec fn obeys_add_spec() -> bool {
        true
    }

    open spec fn add_req(self, rhs: Self) -> bool {
        true
    }

    open spec fn add_spec(self, rhs: Self) -> Self {
        self.sum(rhs)
    }
}

impl<R: Real> std::ops::AddAssign for Dual<R> {
    fn add_assign(&mut self, other: Self)
        ensures
            *final(self) == old(self).sum(other),
    {
        *self = *self + other;
    }
}

impl<R: Real> std::ops::Sub for Dual<R> {
    type Output = Dual<R>;

    fn sub(self, other: Self) -> (r: Dual<R>)
        ensures
            r == self.difference(other),
    {
        Dual { real: self.real.minus(other.real), grad: self.grad.minus(other.grad) }
    }
}

impl<R: Real> vstd::std_specs::ops::SubSpecImpl for Dual<R> {
    open spec fn obeys_sub_spec() -> bool {
        true
    }

    open spec fn sub_req(self, rhs: Self) -> bool {
        true
    }

    open spec fn sub_spec(self, rhs: Self) -> Self {
        self.difference(rhs)
    }
}

impl<R: Real> std::ops::SubAssign for Dual<R> {
    fn sub_assign(&mut self, other: Self)
        ensures
            *final(self) == old(self).difference(other),
    {
        *self = *self - other;
    }
}

impl<R: Real> std::ops::Mul for Dual<R> {
    type Output = Dual<R>;

    fn mul(self, other: Self) -> (r: Dual<R>)
        ensures
            r == self.product(other),
    {
        Dual {
            real: self.real.times(other.real),
            grad: self.real.times(other.grad).plus(self.grad.times(other.real)),
        }
    }
}

impl<R: Real> vstd::std_specs::ops::MulSpecImpl for Dual<R> {
    open spec fn obeys_mul_spec() -> bool {
        true
    }

    open spec fn mul_req(self, rhs: Self) -> bool {
        true
    }

    open spec fn mul_spec(self, rhs: Self) -> Self {
        self.product(rhs)
    }
}

impl<R: Real> std::ops::MulAssign for Dual<R> {
    fn mul_assign(&mut self, other: Self)
        ensures
            *final(self) == old(self).product(other),
    {
        *self = *self * other;
    }
}

impl<R: Real> std::ops::Div for Dual<R> {
    type Output = Dual<R>;

    fn div(self, other: Self) -> (r: Dual<R>)
        ensures
            r == self.quotient(other),
    {
        Dual {
            real: self.real.over(other.real),
            grad: self.grad.over(other.real).plus(self.real.over(other.grad)),
        }
    }
}

impl<R: Real> vstd::std_specs::ops::DivSpecImpl for Dual<R> {
    open spec fn obeys_div_spec() -> bool {
        true
    }

    open spec fn div_req(self, rhs: Self) -> bool {
        true
    }

    open spec fn div_spec(self, rhs: Self) -> Self {
        self.quotient(rhs)
    }
}

impl<R: Real> std::ops::DivAssign for Dual<R> {
    fn div_assign(&mut self, other: Self)
        ensures
            *final(self) == old(self).quotient(other),
    {
        *self = *self / other;
    }
}

impl<R: Real> std::ops::Neg for Dual<R> {
    type Output = Dual<R>;

    fn neg(self) -> (r: Dual<R>)
        ensures
            r == self.negation(),
    {
        Dual { real: self.grad.negate(), grad: self.real.negate() }
    }
}

impl<R: Real> vstd::std_specs::ops::NegSpecImpl for Dual<R> {
    open spec fn obeys_neg_spec() -> bool {
        true
    }

    open spec fn neg_req(self) -> bool {
        true
    }

    open spec fn neg_spec(self) -> Self {
        self.negation()
    }
}

} // verus!

use dualnum::forward::Dual;
use dualnum::scalar::Real;

#[derive(Debug, Clone, Copy, PartialEq, PartialOrd)]
/// `f64` as the scalar of a dual number. Outside Verus, each spec function
/// of the trait is the operation itself.
struct F(f64);

impl Real for F {
    fn spec_zero() -> F {
        F::zero()
    }
    fn spec_one() -> F {
        F::one()
    }
    fn spec_plus(self, o: F) -> F {
        self.plus(o)
    }
    fn spec_minus(self, o: F) -> F {
        self.minus(o)
    }
    fn spec_times(self, o: F) -> F {
        self.times(o)
    }
    fn spec_over(self, o: F) -> F {
        self.over(o)
    }
    fn spec_negate(self) -> F {
        self.negate()
    }
    fn spec_abs(self) -> F {
        self.abs()
    }
    fn spec_signum(self) -> F {
        self.signum()
    }
    fn spec_sqrt(self) -> F {
        self.sqrt()
    }
    fn spec_exp(self) -> F {
        self.exp()
    }
    fn spec_ln(self) -> F {
        self.ln()
    }
    fn spec_sin(self) -> F {
        self.sin()
    }
    fn spec_cos(self) -> F {
        self.cos()
    }
    fn spec_tan(self) -> F {
        self.tan()
    }
    fn spec_asin(self) -> F {
        self.asin()
    }
    fn spec_acos(self) -> F {
        self.acos()
    }
    fn spec_atan(self) -> F {
        self.atan()
    }
    fn spec_sinh(self) -> F {
        self.sinh()
    }
    fn spec_cosh(self) -> F {
        self.cosh()
    }
    fn spec_tanh(self) -> F {
        self.tanh()
    }
    fn spec_asinh(self) -> F {
        self.asinh()
    }
    fn spec_atanh(self) -> F {
        self.atanh()
    }
    fn zero() -> F {
        F(0.0)
    }
    fn one() -> F {
        F(1.0)
    }
    fn plus(self, o: F) -> F {
        F(self.0 + o.0)
    }
    fn minus(self, o: F) -> F {
        F(self.0 - o.0)
    }
    fn times(self, o: F) -> F {
        F(self.0 * o.0)
    }
    fn over(self, o: F) -> F {
        F(self.0 / o.0)
    }
    fn negate(self) -> F {
        F(-self.0)
    }
    fn abs(self) -> F {
        F(self.0.abs())
    }
    fn signum(self) -> F {
        F(self.0.signum())
    }
    fn sqrt(self) -> F {
        F(self.0.sqrt())
    }
    fn exp(self) -> F {
        F(self.0.exp())
    }
    fn ln(self) -> F {
        F(self.0.ln())
    }
    fn sin(self) -> F {
        F(self.0.sin())
    }
    fn cos(self) -> F {
        F(self.0.cos())
    }
    fn tan(self) -> F {
        F(self.0.tan())
    }
    fn asin(self) -> F {
        F(self.0.asin())
    }
    fn acos(self) -> F {
        F(self.0.acos())
    }
    fn atan(self) -> F {
        F(self.0.atan())
    }
    fn sinh(self) -> F {
        F(self.0.sinh())
    }
    fn cosh(self) -> F {
        F(self.0.cosh())
    }
    fn tanh(self) -> F {
        F(self.0.tanh())
    }
    fn asinh(self) -> F {
        F(self.0.asinh())
    }
    fn atanh(self) -> F {
        F(self.0.atanh())
    }
}

fn seed(x: f64) -> Dual<F> {
    Dual { real: F(x), grad: F(1.0) }
}

fn d(real: f64, grad: f64) -> Dual<F> {
    Dual { real: F(real), grad: F(grad) }
}

fn close(a: F, b: f64) -> bool {
    (a.0 - b).abs() < 1e-12
}

#[test]
fn test_grad_0_1() {
    let f = |x: Dual<F>| x * x + x.sin();
    assert!(f(Dual { real: F(0.0), grad: F(1.0) }).grad < F(1.1));
    assert!(f(Dual { real: F(0.0), grad: F(1.0) }).grad > F(0.9));
}

#[test]
fn test_grad_pi_1() {
    let f = |x: Dual<F>| x * x + x.sin();
    assert!(f(Dual { real: F(3.14), grad: F(1.0) }).grad < F(5.3));
    assert!(f(Dual { real: F(3.14), grad: F(1.0) }).grad > F(5.2));
}

#[test]
fn square_plus_sine_matches_closed_form() {
    for x in [-2.0, -0.5, 0.0, 0.7, 1.5, 3.14] {
        let r = seed(x) * seed(x) + seed(x).sin();
        assert!(close(r.grad, 2.0 * x + x.cos()));
        assert!(close(r.real, x * x + x.sin()));
    }
}

#[test]
fn add_and_sub_are_linear() {
    let a = d(2.0, 3.0);
    let b = d(5.0, -7.0);
    assert_eq!(a + b, d(7.0, -4.0));
    assert_eq!(a - b, d(-3.0, 10.0));
}

#[test]
fn mul_follows_product_rule() {
    let a = d(2.0, 3.0);
    let b = d(5.0, -7.0);
    assert_eq!(a * b, d(10.0, 2.0 * -7.0 + 3.0 * 5.0));
}

#[test]
fn div_uses_engine_rule() {
    let a = d(6.0, 3.0);
    let b = d(2.0, 4.0);
    assert_eq!(a / b, d(3.0, 3.0 / 2.0 + 6.0 / 4.0));
}

#[test]
fn neg_swaps_and_negates() {
    assert_eq!(-d(2.0, 3.0), d(-3.0, -2.0));
}

#[test]
fn assign_variants_match_operators() {
    let a = d(2.0, 3.0);
    let b = d(5.0, -7.0);
    let mut x = a;
    x += b;
    assert_eq!(x, a + b);
    let mut x = a;
    x -= b;
    assert_eq!(x, a - b);
    let mut x = a;
    x *= b;
    assert_eq!(x, a * b);
    let mut x = a;
    x /= b;
    assert_eq!(x, a / b);
}

#[test]
fn pow_multiplies_repeatedly() {
    let x = seed(3.0);
    assert_eq!(x.pow(0), d(1.0, 0.0));
    assert_eq!(x.pow(1), x);
    assert_eq!(x.pow(2), d(9.0, 6.0));
    assert_eq!(x.pow(3), d(27.0, 27.0));
    assert_eq!(x.pow(4), d(81.0, 108.0));
}

#[test]
fn accessors_are_pure_reads() {
    let x = d(1.25, -4.5);
    assert_eq!(x.real_part(), F(1.25));
    assert_eq!(x.real_part(), F(1.25));
    assert_eq!(x.grad(), F(-4.5));
    assert_eq!(x.grad(), F(-4.5));
    assert_eq!(x, d(1.25, -4.5));
}

#[test]
fn abs_at_zero_follows_signum_formula() {
    let r = seed(0.0).abs();
    assert_eq!(r.real, F(0.0));
    assert_eq!(r.grad, F(1.0 * 0.0f64.signum()));
    let r = seed(-2.0).abs();
    assert_eq!(r, d(2.0, -1.0));
    let r = d(3.0, -2.0).abs();
    assert_eq!(r, d(3.0, -2.0));
}

#[test]
fn elementary_chain_rule_at_representative_points() {
    let x = 0.5;
    assert!(close(seed(x).exp().grad, x.exp()));
    assert!(close(seed(x).ln().grad, 1.0 / x));
    assert!(close(seed(x).sin().grad, x.cos()));
    assert!(close(seed(x).cos().grad, -x.sin()));
    assert!(close(seed(x).tan().grad, 1.0 / (x.cos() * x.cos())));
    assert!(close(seed(x).asin().grad, 1.0 / (1.0 - x * x).sqrt()));
    assert!(close(seed(x).acos().grad, -1.0 / (1.0 - x * x).sqrt()));
    assert!(close(seed(x).atan().grad, 1.0 / (1.0 + x * x)));
    assert!(close(seed(x).sinh().grad, x.cosh()));
    assert!(close(seed(x).cosh().grad, x.sinh()));
    assert!(close(seed(x).tanh().grad, x.tanh()));
    assert!(close(seed(x).asinh().grad, 1.0 / (1.0 + x * x).sqrt()));
    assert!(close(seed(x).atanh().grad, 1.0 / (1.0 - x * x)));
    let y = 2.0;
    assert!(close(seed(y).acosh().grad, 1.0 / (y * y - 1.0).sqrt()));
}

#[test]
fn elementary_values() {
    let x = 0.5;
    assert!(close(seed(x).exp().real, x.exp()));
    assert!(close(seed(x).ln().real, x.ln()));
    assert!(close(seed(x).tan().real, x.tan()));
    assert!(close(seed(x).asin().real, x.asin()));
    assert!(close(seed(x).atan().real, x.atan()));
    assert!(close(seed(x).tanh().real, x.tanh()));
    assert!(close(seed(x).asinh().real, x.asinh()));
    assert!(close(seed(x).atanh().real, x.atanh()));
    assert!(close(seed(x).acosh().real, x.acos()));
}

#[test]
fn seed_scales_derivative() {
    let x = 0.3;
    assert!(close(d(x, 2.5).sin().grad, 2.5 * x.cos()));
    assert!(close(d(x, -3.0).exp().grad, -3.0 * x.exp()));
}

#[test]
fn inverse_rules_use_sign_unit_at_zero() {
    let z = seed(0.0);
    let u = 0.0f64.signum().abs();
    assert_eq!(z.atan().grad, F(1.0 / u));
    assert_eq!(z.atanh().grad, F(1.0 / u));
    assert_eq!(z.asin().grad, F(1.0 / u.sqrt()));
}

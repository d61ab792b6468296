use odestep::integration::Integrator;
use odestep::integration::RK4Integrator;
use odestep::integration::RK8Integrator;
use odestep::integration::StepSize;
use odestep::Scalar;
use odestep::State;
use odestep::StateDerivative;

#[derive(Clone, Copy, Debug, PartialEq)]
struct F64(f64);

impl Scalar for F64 {
    fn spec_ratio(num: i64, den: i64) -> Self {
        F64(num as f64 / den as f64)
    }
    fn spec_times(self, other: Self) -> Self {
        F64(self.0 * other.0)
    }
    fn spec_divided(self, other: Self) -> Self {
        F64(self.0 / other.0)
    }
    fn spec_minus(self, other: Self) -> Self {
        F64(self.0 - other.0)
    }
    fn spec_negated(self) -> Self {
        F64(-self.0)
    }
    fn spec_lt(self, other: Self) -> bool {
        self.0 < other.0
    }
    fn spec_is_zero(self) -> bool {
        self.0 == 0.0
    }
    fn spec_pow_quarter(self) -> Self {
        F64(self.0.powf(0.25))
    }
    fn spec_cbrt(self) -> Self {
        F64(self.0.cbrt())
    }
    fn ratio(num: i64, den: i64) -> Self {
        F64(num as f64 / den as f64)
    }
    fn times(&self, other: &Self) -> Self {
        F64(self.0 * other.0)
    }
    fn divided(&self, other: &Self) -> Self {
        F64(self.0 / other.0)
    }
    fn minus(&self, other: &Self) -> Self {
        F64(self.0 - other.0)
    }
    fn negated(&self) -> Self {
        F64(-self.0)
    }
    fn lt(&self, other: &Self) -> bool {
        self.0 < other.0
    }
    fn is_zero(&self) -> bool {
        self.0 == 0.0
    }
    fn pow_quarter(&self) -> Self {
        F64(self.0.powf(0.25))
    }
    fn cbrt(&self) -> Self {
        F64(self.0.cbrt())
    }
}

#[derive(Clone, Copy, Debug, PartialEq)]
struct X(f64);

#[derive(Clone, Copy, Debug, PartialEq)]
struct Dx(f64);

impl StateDerivative<F64> for Dx {
    fn spec_plus(self, other: Self) -> Self {
        Dx(self.0 + other.0)
    }
    fn spec_minus(self, other: Self) -> Self {
        Dx(self.0 - other.0)
    }
    fn spec_scaled(self, k: F64) -> Self {
        Dx(self.0 * k.0)
    }
    fn spec_scaled_div(self, k: F64) -> Self {
        Dx(self.0 / k.0)
    }
    fn spec_negated(self) -> Self {
        Dx(-self.0)
    }
    fn spec_abs(self) -> F64 {
        F64(self.0.abs())
    }
    fn plus(&self, other: &Self) -> Self {
        Dx(self.0 + other.0)
    }
    fn minus(&self, other: &Self) -> Self {
        Dx(self.0 - other.0)
    }
    fn scaled(&self, k: &F64) -> Self {
        Dx(self.0 * k.0)
    }
    fn scaled_div(&self, k: &F64) -> Self {
        Dx(self.0 / k.0)
    }
    fn negated(&self) -> Self {
        Dx(-self.0)
    }
    fn abs(&self) -> F64 {
        F64(self.0.abs())
    }
}

impl State for X {
    type Scalar = F64;
    type Derivative = Dx;
    fn spec_shift(self, dir: Dx, amount: F64) -> Self {
        X(self.0 + dir.0 * amount.0)
    }
    fn shift(&self, dir: &Dx, amount: &F64) -> Self {
        let mut r = *self;
        r.shift_in_place(dir, amount);
        r
    }
    fn shift_in_place(&mut self, dir: &Dx, amount: &F64) {
        self.0 += dir.0 * amount.0;
    }
}

fn decay(s: &X) -> Dx {
    Dx(-s.0)
}

fn rk4_one_step_error(h: f64) -> f64 {
    let mut integrator = RK4Integrator::new(F64(h));
    let mut x = X(1.0);
    integrator.propagate_in_place(&mut x, decay, StepSize::UseDefault);
    (x.0 - (-h).exp()).abs()
}

fn rk8_one_step_error(h: f64) -> f64 {
    let mut integrator = RK8Integrator::new(F64(h));
    let mut x = X(1.0);
    integrator.propagate_in_place(&mut x, decay, StepSize::UseDefault);
    (x.0 - (-h).exp()).abs()
}

// Integrating dx/dt = -x over one step: the RK4 update is the degree-4
// Taylor polynomial of e^{-h}, so the local error is close to h^5/120.
#[test]
fn rk4_single_step_matches_taylor_polynomial() {
    let h = 0.1f64;
    let mut integrator = RK4Integrator::new(F64(h));
    let mut x = X(1.0);
    integrator.propagate_in_place(&mut x, decay, StepSize::UseDefault);
    let taylor = 1.0 - h + h * h / 2.0 - h * h * h / 6.0 + h * h * h * h / 24.0;
    assert!((x.0 - taylor).abs() < 1e-15);
}

// Halving the step divides the one-step error by about 2^5 = 32: the
// local truncation error of RK4 is O(h^5).
#[test]
fn rk4_error_is_order_h5() {
    let ratio = rk4_one_step_error(0.1) / rk4_one_step_error(0.05);
    assert!(25.0 < ratio && ratio < 40.0, "ratio {}", ratio);
}

// Halving the step divides the one-step error by about 2^9 = 512: the
// local truncation error of RK8 is O(h^9).
#[test]
fn rk8_error_is_order_h9() {
    let e1 = rk8_one_step_error(0.5);
    let e2 = rk8_one_step_error(0.25);
    assert!(e1 < 1e-8, "e1 {}", e1);
    assert!(e2 < 2e-11, "e2 {}", e2);
    let ratio = e1 / e2;
    assert!(350.0 < ratio && ratio < 750.0, "ratio {}", ratio);
}

#[test]
fn rk8_is_far_more_accurate_than_rk4() {
    assert!(rk8_one_step_error(0.1) < 1e-3 * rk4_one_step_error(0.1));
}

#[test]
fn rk4_explicit_step_matches_default_step() {
    let mut a = RK4Integrator::new(F64(0.2));
    let mut b = RK4Integrator::new(F64(123.0));
    let mut xa = X(1.0);
    let mut xb = X(1.0);
    a.propagate_in_place(&mut xa, decay, StepSize::UseDefault);
    b.propagate_in_place(&mut xb, decay, StepSize::Step(F64(0.2)));
    assert_eq!(xa, xb);
}

#[test]
fn rk8_explicit_step_matches_default_step() {
    let mut a = RK8Integrator::new(F64(0.2));
    let mut b = RK8Integrator::new(F64(123.0));
    let mut xa = X(1.0);
    let mut xb = X(1.0);
    a.propagate_in_place(&mut xa, decay, StepSize::UseDefault);
    b.propagate_in_place(&mut xb, decay, StepSize::Step(F64(0.2)));
    assert_eq!(xa, xb);
}

#[test]
fn rk4_set_default_step_changes_later_calls() {
    let mut a = RK4Integrator::new(F64(0.4));
    a.set_default_step(F64(0.1));
    let mut x = X(1.0);
    a.propagate_in_place(&mut x, decay, StepSize::UseDefault);
    assert_eq!(x.0, {
        let mut y = X(1.0);
        RK4Integrator::new(F64(0.1)).propagate_in_place(&mut y, decay, StepSize::UseDefault);
        y.0
    });
}

#[test]
fn rk8_set_default_step_changes_later_calls() {
    let mut a = RK8Integrator::new(F64(0.4));
    a.set_default_step(F64(0.1));
    let mut x = X(1.0);
    a.propagate_in_place(&mut x, decay, StepSize::UseDefault);
    let mut y = X(1.0);
    RK8Integrator::new(F64(0.1)).propagate_in_place(&mut y, decay, StepSize::UseDefault);
    assert_eq!(x.0, y.0);
}

#[test]
fn propagate_is_clone_then_mutate() {
    let mut a = RK4Integrator::new(F64(0.25));
    let x = X(1.0);
    let advanced = a.propagate(&x, decay, StepSize::UseDefault);
    assert_eq!(x, X(1.0));
    let mut y = x;
    a.propagate_in_place(&mut y, decay, StepSize::UseDefault);
    assert_eq!(advanced, y);
}

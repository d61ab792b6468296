use odestep::integration::DPIntegrator;
use odestep::integration::Integrator;
use odestep::integration::StepSize;
use odestep::Scalar;
use odestep::State;
use odestep::StateDerivative;

#[derive(Clone, Copy, Debug, PartialEq)]
struct F64(f64);

impl Scalar for F64 {
    fn spec_ratio(num: i64, den: i64) -> Self {
        F64(num as f64 / den as f64)
    }
    fn spec_times(self, other: Self) -> Self {
        F64(self.0 * other.0)
    }
    fn spec_divided(self, other: Self) -> Self {
        F64(self.0 / other.0)
    }
    fn spec_minus(self, other: Self) -> Self {
        F64(self.0 - other.0)
    }
    fn spec_negated(self) -> Self {
        F64(-self.0)
    }
    fn spec_lt(self, other: Self) -> bool {
        self.0 < other.0
    }
    fn spec_is_zero(self) -> bool {
        self.0 == 0.0
    }
    fn spec_pow_quarter(self) -> Self {
        F64(self.0.powf(0.25))
    }
    fn spec_cbrt(self) -> Self {
        F64(self.0.cbrt())
    }
    fn ratio(num: i64, den: i64) -> Self {
        F64(num as f64 / den as f64)
    }
    fn times(&self, other: &Self) -> Self {
        F64(self.0 * other.0)
    }
    fn divided(&self, other: &Self) -> Self {
        F64(self.0 / other.0)
    }
    fn minus(&self, other: &Self) -> Self {
        F64(self.0 - other.0)
    }
    fn negated(&self) -> Self {
        F64(-self.0)
    }
    fn lt(&self, other: &Self) -> bool {
        self.0 < other.0
    }
    fn is_zero(&self) -> bool {
        self.0 == 0.0
    }
    fn pow_quarter(&self) -> Self {
        F64(self.0.powf(0.25))
    }
    fn cbrt(&self) -> Self {
        F64(self.0.cbrt())
    }
}

#[derive(Clone, Copy, Debug, PartialEq)]
struct X(f64);

#[derive(Clone, Copy, Debug, PartialEq)]
struct Dx(f64);

impl StateDerivative<F64> for Dx {
    fn spec_plus(self, other: Self) -> Self {
        Dx(self.0 + other.0)
    }
    fn spec_minus(self, other: Self) -> Self {
        Dx(self.0 - other.0)
    }
    fn spec_scaled(self, k: F64) -> Self {
        Dx(self.0 * k.0)
    }
    fn spec_scaled_div(self, k: F64) -> Self {
        Dx(self.0 / k.0)
    }
    fn spec_negated(self) -> Self {
        Dx(-self.0)
    }
    fn spec_abs(self) -> F64 {
        F64(self.0.abs())
    }
    fn plus(&self, other: &Self) -> Self {
        Dx(self.0 + other.0)
    }
    fn minus(&self, other: &Self) -> Self {
        Dx(self.0 - other.0)
    }
    fn scaled(&self, k: &F64) -> Self {
        Dx(self.0 * k.0)
    }
    fn scaled_div(&self, k: &F64) -> Self {
        Dx(self.0 / k.0)
    }
    fn negated(&self) -> Self {
        Dx(-self.0)
    }
    fn abs(&self) -> F64 {
        F64(self.0.abs())
    }
}

impl State for X {
    type Scalar = F64;
    type Derivative = Dx;
    fn spec_shift(self, dir: Dx, amount: F64) -> Self {
        X(self.0 + dir.0 * amount.0)
    }
    fn shift(&self, dir: &Dx, amount: &F64) -> Self {
        let mut r = *self;
        r.shift_in_place(dir, amount);
        r
    }
    fn shift_in_place(&mut self, dir: &Dx, amount: &F64) {
        self.0 += dir.0 * amount.0;
    }
}

fn decay(s: &X) -> Dx {
    Dx(-s.0)
}

fn still(_s: &X) -> Dx {
    Dx(0.0)
}

// Adaptive clamping: over a grid of tolerances and starting steps, the
// default step after a call always lies in [min_step, max_step].
#[test]
fn default_step_stays_clamped_after_any_call() {
    for tol in [1e-12, 1e-6, 1.0] {
        for h0 in [0.001, 0.5, 5.0] {
            let mut dp: DPIntegrator<X> = DPIntegrator::new(F64(h0), F64(1e-3), F64(2.0), F64(tol));
            let mut x = X(1.0);
            dp.propagate_in_place(&mut x, decay, StepSize::UseDefault);
            assert!(1e-3 <= dp.default_step.0 && dp.default_step.0 <= 2.0);
        }
    }
}

// A derivative that is identically zero makes the error estimate
// exactly zero; the controller then grows the default step all the way
// to max_step instead of dividing by zero.
#[test]
fn zero_error_estimate_grows_step_to_max() {
    let mut dp: DPIntegrator<X> = DPIntegrator::new(F64(0.01), F64(1e-6), F64(0.7), F64(1e-9));
    let mut x = X(3.5);
    dp.propagate_in_place(&mut x, still, StepSize::UseDefault);
    assert_eq!(dp.default_step, F64(0.7));
    assert_eq!(x, X(3.5));
}

// Adaptive convergence: tightening max_err never increases the default
// step the controller settles on, loosening it never decreases it.
#[test]
fn step_size_responds_monotonically_to_tolerance() {
    let mut settled: Vec<f64> = Vec::new();
    for tol in [1e-12, 1e-9, 1e-6, 1e-3] {
        let mut dp: DPIntegrator<X> = DPIntegrator::new(F64(0.5), F64(1e-9), F64(10.0), F64(tol));
        let mut x = X(1.0);
        dp.propagate_in_place(&mut x, decay, StepSize::UseDefault);
        settled.push(dp.default_step.0);
    }
    for w in settled.windows(2) {
        assert!(w[0] <= w[1], "steps not monotone: {:?}", settled);
    }
}

// FSAL transparency: a run of UseDefault calls must give exactly the
// same states as explicitly requesting each accepted step in turn; the
// cached derivative must not alter the trajectory. The configuration
// is chosen so no step is rejected, so the accepted step of each call
// is the default step the call started with.
#[test]
fn fsal_cache_is_transparent_to_the_trajectory() {
    let mut defaults: Vec<F64> = Vec::new();
    let mut states: Vec<X> = Vec::new();
    let mut dp: DPIntegrator<X> = DPIntegrator::new(F64(0.01), F64(1e-6), F64(0.1), F64(1e-6));
    let mut x = X(1.0);
    for _ in 0..10 {
        defaults.push(dp.default_step);
        dp.propagate_in_place(&mut x, decay, StepSize::UseDefault);
        states.push(x);
    }

    let mut dp2: DPIntegrator<X> = DPIntegrator::new(F64(0.01), F64(1e-6), F64(0.1), F64(1e-6));
    let mut y = X(1.0);
    for (i, h) in defaults.iter().enumerate() {
        dp2.propagate_in_place(&mut y, decay, StepSize::Step(*h));
        assert_eq!(y, states[i], "trajectories diverge at call {}", i);
    }
}

// An explicitly requested step is always accepted, however large the
// error estimate: adaptivity is advisory in explicit mode.
#[test]
fn explicit_step_is_accepted_despite_large_error() {
    let mut dp: DPIntegrator<X> = DPIntegrator::new(F64(0.01), F64(1e-9), F64(50.0), F64(1e-12));
    let mut x = X(1.0);
    dp.propagate_in_place(&mut x, decay, StepSize::Step(F64(10.0)));
    assert!(x != X(1.0));
    assert!(dp.last_derivative.is_some());
}

// After an accepted step the final derivative evaluation is cached for
// first-same-as-last reuse; reset() clears it, reset_default_step()
// keeps it.
#[test]
fn cache_is_kept_by_reset_default_step_and_cleared_by_reset() {
    let mut dp: DPIntegrator<X> = DPIntegrator::new(F64(0.01), F64(1e-6), F64(0.1), F64(1e-6));
    let mut x = X(1.0);
    dp.propagate_in_place(&mut x, decay, StepSize::UseDefault);
    assert!(dp.last_derivative.is_some());
    dp.reset_default_step();
    assert_eq!(dp.default_step, F64(0.01));
    assert!(dp.last_derivative.is_some());
    dp.reset();
    assert!(dp.last_derivative.is_none());
}

// Reset semantics: after arbitrary use, reset() followed by a call
// gives the same resulting state and default step as a freshly
// constructed integrator with the same configuration.
#[test]
fn reset_then_call_matches_fresh_integrator() {
    let mut used: DPIntegrator<X> = DPIntegrator::new(F64(0.02), F64(1e-6), F64(0.3), F64(1e-7));
    let mut x = X(1.0);
    for _ in 0..5 {
        used.propagate_in_place(&mut x, decay, StepSize::UseDefault);
    }
    used.reset();

    let mut fresh: DPIntegrator<X> = DPIntegrator::new(F64(0.02), F64(1e-6), F64(0.3), F64(1e-7));
    assert_eq!(used.default_step, fresh.default_step);
    assert_eq!(used.last_derivative, fresh.last_derivative);

    let mut xr = X(0.8);
    let mut xf = X(0.8);
    used.propagate_in_place(&mut xr, decay, StepSize::UseDefault);
    fresh.propagate_in_place(&mut xf, decay, StepSize::UseDefault);
    assert_eq!(xr, xf);
    assert_eq!(used.default_step, fresh.default_step);
}

// One accepted adaptive step of a smooth problem keeps the local error
// around the requested tolerance.
#[test]
fn accepted_step_is_accurate() {
    let mut dp: DPIntegrator<X> = DPIntegrator::new(F64(0.1), F64(1e-9), F64(1.0), F64(1e-8));
    let mut x = X(1.0);
    dp.propagate_in_place(&mut x, decay, StepSize::Step(F64(0.1)));
    assert!((x.0 - (-0.1f64).exp()).abs() < 1e-8);
}

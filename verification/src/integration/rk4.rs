use vstd::prelude::*;

use super::Integrator;
use super::StepSize;
use crate::traits::Scalar;
use crate::traits::State;
use crate::traits::StateDerivative;

verus! {

/// The classical 4-stage, 4th-order Runge-Kutta method with a fixed
/// step size. Exactly 4 derivative evaluations per call and no error
/// feedback; the only configuration is the default step.
pub struct RK4Integrator<Sc: Scalar> {
    pub default_step: Sc,
}

impl<Sc: Scalar> RK4Integrator<Sc> {
    pub fn new(step_size: Sc) -> (r: Self)
        ensures
            r.default_step == step_size,
    {
        RK4Integrator { default_step: step_size }
    }

    pub fn set_default_step(&mut self, step: Sc)
        ensures
            final(self).default_step == step,
    {
        self.default_step = step;
    }
}

/// One classical step from `s0` to `s1` over step `h`: `k1` is a value
/// of `diff_eq` at `s0`, `k2` and `k3` at the midpoint trials, `k4` at
/// the full-step trial, and `s1` is `s0` shifted by the weighted
/// combination `k1 + 2 k2 + 2 k3 + k4` over `h / 6`.
pub open spec fn rk4_step_rel<S: State, D: Fn(&S) -> S::Derivative>(
    diff_eq: D,
    s0: S,
    h: S::Scalar,
    s1: S,
) -> bool {
    let half_h = h.spec_divided(S::Scalar::spec_ratio(2, 1));
    let two = S::Scalar::spec_ratio(2, 1);
    exists|k1: S::Derivative|
        #[trigger] call_ensures(diff_eq, (&s0,), k1) && (exists|k2: S::Derivative|
            #[trigger] call_ensures(diff_eq, (&s0.spec_shift(k1, half_h),), k2) && (exists|
                k3: S::Derivative,
            |
                #[trigger] call_ensures(diff_eq, (&s0.spec_shift(k2, half_h),), k3) && (exists|
                    k4: S::Derivative,
                |
                    #[trigger] call_ensures(diff_eq, (&s0.spec_shift(k3, h),), k4) && s1 == s0.spec_shift(
                        k1.spec_plus(k2.spec_scaled(two)).spec_plus(k3.spec_scaled(two)).spec_plus(
                            k4,
                        ),
                        h.spec_divided(S::Scalar::spec_ratio(6, 1)),
                    ))))
}

impl<S: State> Integrator<S> for RK4Integrator<S::Scalar> {
    /// One classical step: the state advances by exactly the 4-stage
    /// tableau over the resolved step, and the configuration is never
    /// changed.
    fn propagate_in_place<D: Fn(&S) -> S::Derivative>(
        &mut self,
        start: &mut S,
        diff_eq: D,
        step_size: StepSize<S::Scalar>,
    )
        ensures
            *final(self) == *old(self),
            rk4_step_rel(
                diff_eq,
                *old(start),
                step_size.spec_resolved(old(self).default_step),
                *final(start),
            ),
    {
        let h = match step_size {
            StepSize::UseDefault => self.default_step,
            StepSize::Step(x) => x,
        };
        let half_h = h.divided(&S::Scalar::ratio(2, 1));

        let k1 = diff_eq(start);
        let k2 = diff_eq(&start.shift(&k1, &half_h));
        let k3 = diff_eq(&start.shift(&k2, &half_h));
        let k4 = diff_eq(&start.shift(&k3, &h));

        let two = S::Scalar::ratio(2, 1);
        let sum = k1.plus(&k2.scaled(&two)).plus(&k3.scaled(&two)).plus(&k4);
        start.shift_in_place(&sum, &h.divided(&S::Scalar::ratio(6, 1)));
    }

    /// The non-mutating form: one classical step applied to a clone of
    /// `start` (whatever the host's `clone` returned for it).
    fn propagate<D: Fn(&S) -> S::Derivative>(
        &mut self,
        start: &S,
        diff_eq: D,
        step: StepSize<S::Scalar>,
    ) -> (r: S)
        ensures
            *final(self) == *old(self),
            exists|c: S|
                #[trigger] call_ensures(<S as Clone>::clone, (start,), c) && rk4_step_rel(
                    diff_eq,
                    c,
                    step.spec_resolved(old(self).default_step),
                    r,
                ),
    {
        let mut result = start.clone();
        self.propagate_in_place(&mut result, diff_eq, step);
        result
    }
}

} // verus!

use vstd::prelude::*;

use super::Integrator;
use super::StepSize;
use crate::traits::Scalar;
use crate::traits::State;
use crate::traits::StateDerivative;

verus! {

/// A 10-stage, 8th-order Runge-Kutta method with a fixed step size.
/// Each stage evaluates the derivative at the start state shifted by a
/// normalized combination of the earlier stage derivatives; the final
/// update is a fixed weighted sum of all 10 stages normalized by 840.
/// Exactly 10 derivative evaluations per call, no error feedback. The
/// method's order depends on these exact rational coefficients; no
/// substitution is allowed.
pub struct RK8Integrator<Sc: Scalar> {
    pub default_step: Sc,
}

impl<Sc: Scalar> RK8Integrator<Sc> {
    pub fn new(step_size: Sc) -> (r: Self)
        ensures
            r.default_step == step_size,
    {
        RK8Integrator { default_step: step_size }
    }

    pub fn set_default_step(&mut self, step: Sc)
        ensures
            final(self).default_step == step,
    {
        self.default_step = step;
    }
}

/// The normalized combination of the first 1 stage derivatives
/// that places the trial state of stage 1.
pub open spec fn rk8_combo1<S: State>(f0: S::Derivative) -> S::Derivative {
    f0.spec_scaled(S::Scalar::spec_ratio(1i64, 1)).spec_scaled_div(S::Scalar::spec_ratio(1i64, 1))
}

/// The normalized combination of the first 2 stage derivatives
/// that places the trial state of stage 2.
pub open spec fn rk8_combo2<S: State>(f0: S::Derivative, f1: S::Derivative) -> S::Derivative {
    f0.spec_scaled(S::Scalar::spec_ratio(1i64, 1)).spec_plus(f1.spec_scaled(S::Scalar::spec_ratio(3i64, 1))).spec_scaled_div(S::Scalar::spec_ratio(4i64, 1))
}

/// The normalized combination of the first 3 stage derivatives
/// that places the trial state of stage 3.
pub open spec fn rk8_combo3<S: State>(f0: S::Derivative, f1: S::Derivative, f2: S::Derivative) -> S::Derivative {
    f0.spec_scaled(S::Scalar::spec_ratio(1i64, 1)).spec_plus(f1.spec_scaled(S::Scalar::spec_ratio(0i64, 1))).spec_plus(f2.spec_scaled(S::Scalar::spec_ratio(3i64, 1))).spec_scaled_div(S::Scalar::spec_ratio(4i64, 1))
}

/// The normalized combination of the first 4 stage derivatives
/// that places the trial state of stage 4.
pub open spec fn rk8_combo4<S: State>(f0: S::Derivative, f1: S::Derivative, f2: S::Derivative, f3: S::Derivative) -> S::Derivative {
    f0.spec_scaled(S::Scalar::spec_ratio(1i64, 1)).spec_plus(f1.spec_scaled(S::Scalar::spec_ratio(0i64, 1))).spec_plus(f2.spec_scaled(S::Scalar::spec_ratio(0i64, 1))).spec_plus(f3.spec_scaled(S::Scalar::spec_ratio(3i64, 1))).spec_scaled_div(S::Scalar::spec_ratio(4i64, 1))
}

/// The normalized combination of the first 5 stage derivatives
/// that places the trial state of stage 5.
pub open spec fn rk8_combo5<S: State>(f0: S::Derivative, f1: S::Derivative, f2: S::Derivative, f3: S::Derivative, f4: S::Derivative) -> S::Derivative {
    f0.spec_scaled(S::Scalar::spec_ratio(13i64, 1)).spec_plus(f1.spec_scaled(S::Scalar::spec_ratio(0i64, 1))).spec_plus(f2.spec_scaled(S::Scalar::spec_ratio(-27i64, 1))).spec_plus(f3.spec_scaled(S::Scalar::spec_ratio(42i64, 1))).spec_plus(f4.spec_scaled(S::Scalar::spec_ratio(8i64, 1))).spec_scaled_div(S::Scalar::spec_ratio(36i64, 1))
}

/// The normalized combination of the first 6 stage derivatives
/// that places the trial state of stage 6.
pub open spec fn rk8_combo6<S: State>(f0: S::Derivative, f1: S::Derivative, f2: S::Derivative, f3: S::Derivative, f4: S::Derivative, f5: S::Derivative) -> S::Derivative {
    f0.spec_scaled(S::Scalar::spec_ratio(389i64, 1)).spec_plus(f1.spec_scaled(S::Scalar::spec_ratio(0i64, 1))).spec_plus(f2.spec_scaled(S::Scalar::spec_ratio(-54i64, 1))).spec_plus(f3.spec_scaled(S::Scalar::spec_ratio(966i64, 1))).spec_plus(f4.spec_scaled(S::Scalar::spec_ratio(-824i64, 1))).spec_plus(f5.spec_scaled(S::Scalar::spec_ratio(243i64, 1))).spec_scaled_div(S::Scalar::spec_ratio(720i64, 1))
}

/// The normalized combination of the first 7 stage derivatives
/// that places the trial state of stage 7.
pub open spec fn rk8_combo7<S: State>(f0: S::Derivative, f1: S::Derivative, f2: S::Derivative, f3: S::Derivative, f4: S::Derivative, f5: S::Derivative, f6: S::Derivative) -> S::Derivative {
    f0.spec_scaled(S::Scalar::spec_ratio(-231i64, 1)).spec_plus(f1.spec_scaled(S::Scalar::spec_ratio(0i64, 1))).spec_plus(f2.spec_scaled(S::Scalar::spec_ratio(81i64, 1))).spec_plus(f3.spec_scaled(S::Scalar::spec_ratio(-1164i64, 1))).spec_plus(f4.spec_scaled(S::Scalar::spec_ratio(656i64, 1))).spec_plus(f5.spec_scaled(S::Scalar::spec_ratio(-122i64, 1))).spec_plus(f6.spec_scaled(S::Scalar::spec_ratio(800i64, 1))).spec_scaled_div(S::Scalar::spec_ratio(20i64, 1))
}

/// The normalized combination of the first 8 stage derivatives
/// that places the trial state of stage 8.
pub open spec fn rk8_combo8<S: State>(f0: S::Derivative, f1: S::Derivative, f2: S::Derivative, f3: S::Derivative, f4: S::Derivative, f5: S::Derivative, f6: S::Derivative, f7: S::Derivative) -> S::Derivative {
    f0.spec_scaled(S::Scalar::spec_ratio(-127i64, 1)).spec_plus(f1.spec_scaled(S::Scalar::spec_ratio(0i64, 1))).spec_plus(f2.spec_scaled(S::Scalar::spec_ratio(18i64, 1))).spec_plus(f3.spec_scaled(S::Scalar::spec_ratio(-678i64, 1))).spec_plus(f4.spec_scaled(S::Scalar::spec_ratio(456i64, 1))).spec_plus(f5.spec_scaled(S::Scalar::spec_ratio(-9i64, 1))).spec_plus(f6.spec_scaled(S::Scalar::spec_ratio(576i64, 1))).spec_plus(f7.spec_scaled(S::Scalar::spec_ratio(4i64, 1))).spec_scaled_div(S::Scalar::spec_ratio(240i64, 1))
}

/// The normalized combination of the first 9 stage derivatives
/// that places the trial state of stage 9.
pub open spec fn rk8_combo9<S: State>(f0: S::Derivative, f1: S::Derivative, f2: S::Derivative, f3: S::Derivative, f4: S::Derivative, f5: S::Derivative, f6: S::Derivative, f7: S::Derivative, f8: S::Derivative) -> S::Derivative {
    f0.spec_scaled(S::Scalar::spec_ratio(1481i64, 1)).spec_plus(f1.spec_scaled(S::Scalar::spec_ratio(0i64, 1))).spec_plus(f2.spec_scaled(S::Scalar::spec_ratio(-81i64, 1))).spec_plus(f3.spec_scaled(S::Scalar::spec_ratio(7104i64, 1))).spec_plus(f4.spec_scaled(S::Scalar::spec_ratio(-3376i64, 1))).spec_plus(f5.spec_scaled(S::Scalar::spec_ratio(72i64, 1))).spec_plus(f6.spec_scaled(S::Scalar::spec_ratio(-5040i64, 1))).spec_plus(f7.spec_scaled(S::Scalar::spec_ratio(-60i64, 1))).spec_plus(f8.spec_scaled(S::Scalar::spec_ratio(720i64, 1))).spec_scaled_div(S::Scalar::spec_ratio(820i64, 1))
}

/// The final update combination: the fixed weighted sum of all 10
/// stage derivatives, normalized by 840.
pub open spec fn rk8_update<S: State>(f0: S::Derivative, f1: S::Derivative, f2: S::Derivative, f3: S::Derivative, f4: S::Derivative, f5: S::Derivative, f6: S::Derivative, f7: S::Derivative, f8: S::Derivative, f9: S::Derivative) -> S::Derivative {
    f0.spec_scaled(S::Scalar::spec_ratio(41i64, 1)).spec_plus(f1.spec_scaled(S::Scalar::spec_ratio(0i64, 1))).spec_plus(f2.spec_scaled(S::Scalar::spec_ratio(0i64, 1))).spec_plus(f3.spec_scaled(S::Scalar::spec_ratio(27i64, 1))).spec_plus(f4.spec_scaled(S::Scalar::spec_ratio(272i64, 1))).spec_plus(f5.spec_scaled(S::Scalar::spec_ratio(27i64, 1))).spec_plus(f6.spec_scaled(S::Scalar::spec_ratio(216i64, 1))).spec_plus(f7.spec_scaled(S::Scalar::spec_ratio(0i64, 1))).spec_plus(f8.spec_scaled(S::Scalar::spec_ratio(216i64, 1))).spec_plus(f9.spec_scaled(S::Scalar::spec_ratio(41i64, 1))).spec_scaled_div(S::Scalar::spec_ratio(840i64, 1))
}

/// One 10-stage step from `s0` to `s1` over `h`: stage 0 is a value
/// of `diff_eq` at `s0`, stage i at `s0` shifted by its normalized
/// combination of the earlier stages over `h * a[i]`, and `s1` is
/// `s0` shifted by the weighted update over `h`.
pub open spec fn rk8_step_rel<S: State, D: Fn(&S) -> S::Derivative>(
    diff_eq: D,
    s0: S,
    h: S::Scalar,
    s1: S,
) -> bool {
    exists|f0: S::Derivative| #[trigger] call_ensures(diff_eq, (&s0,), f0) && (
    exists|f1: S::Derivative| #[trigger] call_ensures(diff_eq, (&s0.spec_shift(rk8_combo1::<S>(f0), h.spec_times(S::Scalar::spec_ratio(4i64, 1)).spec_divided(S::Scalar::spec_ratio(27i64, 1))),), f1) && (
    exists|f2: S::Derivative| #[trigger] call_ensures(diff_eq, (&s0.spec_shift(rk8_combo2::<S>(f0, f1), h.spec_times(S::Scalar::spec_ratio(2i64, 1)).spec_divided(S::Scalar::spec_ratio(9i64, 1))),), f2) && (
    exists|f3: S::Derivative| #[trigger] call_ensures(diff_eq, (&s0.spec_shift(rk8_combo3::<S>(f0, f1, f2), h.spec_times(S::Scalar::spec_ratio(1i64, 1)).spec_divided(S::Scalar::spec_ratio(3i64, 1))),), f3) && (
    exists|f4: S::Derivative| #[trigger] call_ensures(diff_eq, (&s0.spec_shift(rk8_combo4::<S>(f0, f1, f2, f3), h.spec_times(S::Scalar::spec_ratio(1i64, 1)).spec_divided(S::Scalar::spec_ratio(2i64, 1))),), f4) && (
    exists|f5: S::Derivative| #[trigger] call_ensures(diff_eq, (&s0.spec_shift(rk8_combo5::<S>(f0, f1, f2, f3, f4), h.spec_times(S::Scalar::spec_ratio(2i64, 1)).spec_divided(S::Scalar::spec_ratio(3i64, 1))),), f5) && (
    exists|f6: S::Derivative| #[trigger] call_ensures(diff_eq, (&s0.spec_shift(rk8_combo6::<S>(f0, f1, f2, f3, f4, f5), h.spec_times(S::Scalar::spec_ratio(1i64, 1)).spec_divided(S::Scalar::spec_ratio(6i64, 1))),), f6) && (
    exists|f7: S::Derivative| #[trigger] call_ensures(diff_eq, (&s0.spec_shift(rk8_combo7::<S>(f0, f1, f2, f3, f4, f5, f6), h.spec_times(S::Scalar::spec_ratio(1i64, 1)).spec_divided(S::Scalar::spec_ratio(1i64, 1))),), f7) && (
    exists|f8: S::Derivative| #[trigger] call_ensures(diff_eq, (&s0.spec_shift(rk8_combo8::<S>(f0, f1, f2, f3, f4, f5, f6, f7), h.spec_times(S::Scalar::spec_ratio(5i64, 1)).spec_divided(S::Scalar::spec_ratio(6i64, 1))),), f8) && (
    exists|f9: S::Derivative| #[trigger] call_ensures(diff_eq, (&s0.spec_shift(rk8_combo9::<S>(f0, f1, f2, f3, f4, f5, f6, f7, f8), h.spec_times(S::Scalar::spec_ratio(1i64, 1)).spec_divided(S::Scalar::spec_ratio(1i64, 1))),), f9)
    && s1 == s0.spec_shift(rk8_update::<S>(f0, f1, f2, f3, f4, f5, f6, f7, f8, f9), h))))))))))
}

impl<S: State> Integrator<S> for RK8Integrator<S::Scalar> {
    /// One step of the 10-stage tableau: the state advances by exactly
    /// the tableau update over the resolved step, and the
    /// configuration is never changed.
    fn propagate_in_place<D: Fn(&S) -> S::Derivative>(
        &mut self,
        start: &mut S,
        diff_eq: D,
        step_size: StepSize<S::Scalar>,
    )
        ensures
            *final(self) == *old(self),
            rk8_step_rel(
                diff_eq,
                *old(start),
                step_size.spec_resolved(old(self).default_step),
                *final(start),
            ),
    {
        let h = match step_size {
            StepSize::UseDefault => self.default_step,
            StepSize::Step(x) => x,
        };

        let f0 = diff_eq(start);
        let f1 = diff_eq(&start.shift(&f0.scaled(&S::Scalar::ratio(1, 1)).scaled_div(&S::Scalar::ratio(1, 1)), &h.times(&S::Scalar::ratio(4, 1)).divided(&S::Scalar::ratio(27, 1))));
        let f2 = diff_eq(&start.shift(&f0.scaled(&S::Scalar::ratio(1, 1)).plus(&f1.scaled(&S::Scalar::ratio(3, 1))).scaled_div(&S::Scalar::ratio(4, 1)), &h.times(&S::Scalar::ratio(2, 1)).divided(&S::Scalar::ratio(9, 1))));
        let f3 = diff_eq(&start.shift(&f0.scaled(&S::Scalar::ratio(1, 1)).plus(&f1.scaled(&S::Scalar::ratio(0, 1))).plus(&f2.scaled(&S::Scalar::ratio(3, 1))).scaled_div(&S::Scalar::ratio(4, 1)), &h.times(&S::Scalar::ratio(1, 1)).divided(&S::Scalar::ratio(3, 1))));
        let f4 = diff_eq(&start.shift(&f0.scaled(&S::Scalar::ratio(1, 1)).plus(&f1.scaled(&S::Scalar::ratio(0, 1))).plus(&f2.scaled(&S::Scalar::ratio(0, 1))).plus(&f3.scaled(&S::Scalar::ratio(3, 1))).scaled_div(&S::Scalar::ratio(4, 1)), &h.times(&S::Scalar::ratio(1, 1)).divided(&S::Scalar::ratio(2, 1))));
        let f5 = diff_eq(&start.shift(&f0.scaled(&S::Scalar::ratio(13, 1)).plus(&f1.scaled(&S::Scalar::ratio(0, 1))).plus(&f2.scaled(&S::Scalar::ratio(-27, 1))).plus(&f3.scaled(&S::Scalar::ratio(42, 1))).plus(&f4.scaled(&S::Scalar::ratio(8, 1))).scaled_div(&S::Scalar::ratio(36, 1)), &h.times(&S::Scalar::ratio(2, 1)).divided(&S::Scalar::ratio(3, 1))));
        let f6 = diff_eq(&start.shift(&f0.scaled(&S::Scalar::ratio(389, 1)).plus(&f1.scaled(&S::Scalar::ratio(0, 1))).plus(&f2.scaled(&S::Scalar::ratio(-54, 1))).plus(&f3.scaled(&S::Scalar::ratio(966, 1))).plus(&f4.scaled(&S::Scalar::ratio(-824, 1))).plus(&f5.scaled(&S::Scalar::ratio(243, 1))).scaled_div(&S::Scalar::ratio(720, 1)), &h.times(&S::Scalar::ratio(1, 1)).divided(&S::Scalar::ratio(6, 1))));
        let f7 = diff_eq(&start.shift(&f0.scaled(&S::Scalar::ratio(-231, 1)).plus(&f1.scaled(&S::Scalar::ratio(0, 1))).plus(&f2.scaled(&S::Scalar::ratio(81, 1))).plus(&f3.scaled(&S::Scalar::ratio(-1164, 1))).plus(&f4.scaled(&S::Scalar::ratio(656, 1))).plus(&f5.scaled(&S::Scalar::ratio(-122, 1))).plus(&f6.scaled(&S::Scalar::ratio(800, 1))).scaled_div(&S::Scalar::ratio(20, 1)), &h.times(&S::Scalar::ratio(1, 1)).divided(&S::Scalar::ratio(1, 1))));
        let f8 = diff_eq(&start.shift(&f0.scaled(&S::Scalar::ratio(-127, 1)).plus(&f1.scaled(&S::Scalar::ratio(0, 1))).plus(&f2.scaled(&S::Scalar::ratio(18, 1))).plus(&f3.scaled(&S::Scalar::ratio(-678, 1))).plus(&f4.scaled(&S::Scalar::ratio(456, 1))).plus(&f5.scaled(&S::Scalar::ratio(-9, 1))).plus(&f6.scaled(&S::Scalar::ratio(576, 1))).plus(&f7.scaled(&S::Scalar::ratio(4, 1))).scaled_div(&S::Scalar::ratio(240, 1)), &h.times(&S::Scalar::ratio(5, 1)).divided(&S::Scalar::ratio(6, 1))));
        let f9 = diff_eq(&start.shift(&f0.scaled(&S::Scalar::ratio(1481, 1)).plus(&f1.scaled(&S::Scalar::ratio(0, 1))).plus(&f2.scaled(&S::Scalar::ratio(-81, 1))).plus(&f3.scaled(&S::Scalar::ratio(7104, 1))).plus(&f4.scaled(&S::Scalar::ratio(-3376, 1))).plus(&f5.scaled(&S::Scalar::ratio(72, 1))).plus(&f6.scaled(&S::Scalar::ratio(-5040, 1))).plus(&f7.scaled(&S::Scalar::ratio(-60, 1))).plus(&f8.scaled(&S::Scalar::ratio(720, 1))).scaled_div(&S::Scalar::ratio(820, 1)), &h.times(&S::Scalar::ratio(1, 1)).divided(&S::Scalar::ratio(1, 1))));

        let ghost s0 = *old(start);
        proof {
            assert(call_ensures(diff_eq, (&s0,), f0));
            assert(call_ensures(
                diff_eq,
                (&s0.spec_shift(rk8_combo1::<S>(f0), h.spec_times(S::Scalar::spec_ratio(4i64, 1)).spec_divided(S::Scalar::spec_ratio(27i64, 1))),),
                f1,
            ));
            assert(call_ensures(
                diff_eq,
                (&s0.spec_shift(rk8_combo2::<S>(f0, f1), h.spec_times(S::Scalar::spec_ratio(2i64, 1)).spec_divided(S::Scalar::spec_ratio(9i64, 1))),),
                f2,
            ));
            assert(call_ensures(
                diff_eq,
                (&s0.spec_shift(rk8_combo3::<S>(f0, f1, f2), h.spec_times(S::Scalar::spec_ratio(1i64, 1)).spec_divided(S::Scalar::spec_ratio(3i64, 1))),),
                f3,
            ));
            assert(call_ensures(
                diff_eq,
                (&s0.spec_shift(rk8_combo4::<S>(f0, f1, f2, f3), h.spec_times(S::Scalar::spec_ratio(1i64, 1)).spec_divided(S::Scalar::spec_ratio(2i64, 1))),),
                f4,
            ));
            assert(call_ensures(
                diff_eq,
                (&s0.spec_shift(rk8_combo5::<S>(f0, f1, f2, f3, f4), h.spec_times(S::Scalar::spec_ratio(2i64, 1)).spec_divided(S::Scalar::spec_ratio(3i64, 1))),),
                f5,
            ));
            assert(call_ensures(
                diff_eq,
                (&s0.spec_shift(rk8_combo6::<S>(f0, f1, f2, f3, f4, f5), h.spec_times(S::Scalar::spec_ratio(1i64, 1)).spec_divided(S::Scalar::spec_ratio(6i64, 1))),),
                f6,
            ));
            assert(call_ensures(
                diff_eq,
                (&s0.spec_shift(rk8_combo7::<S>(f0, f1, f2, f3, f4, f5, f6), h.spec_times(S::Scalar::spec_ratio(1i64, 1)).spec_divided(S::Scalar::spec_ratio(1i64, 1))),),
                f7,
            ));
            assert(call_ensures(
                diff_eq,
                (&s0.spec_shift(rk8_combo8::<S>(f0, f1, f2, f3, f4, f5, f6, f7), h.spec_times(S::Scalar::spec_ratio(5i64, 1)).spec_divided(S::Scalar::spec_ratio(6i64, 1))),),
                f8,
            ));
            assert(call_ensures(
                diff_eq,
                (&s0.spec_shift(rk8_combo9::<S>(f0, f1, f2, f3, f4, f5, f6, f7, f8), h.spec_times(S::Scalar::spec_ratio(1i64, 1)).spec_divided(S::Scalar::spec_ratio(1i64, 1))),),
                f9,
            ));
        }

        let update = f0.scaled(&S::Scalar::ratio(41, 1)).plus(&f1.scaled(&S::Scalar::ratio(0, 1))).plus(&f2.scaled(&S::Scalar::ratio(0, 1))).plus(&f3.scaled(&S::Scalar::ratio(27, 1))).plus(&f4.scaled(&S::Scalar::ratio(272, 1))).plus(&f5.scaled(&S::Scalar::ratio(27, 1))).plus(&f6.scaled(&S::Scalar::ratio(216, 1))).plus(&f7.scaled(&S::Scalar::ratio(0, 1))).plus(&f8.scaled(&S::Scalar::ratio(216, 1))).plus(&f9.scaled(&S::Scalar::ratio(41, 1))).scaled_div(&S::Scalar::ratio(840, 1));
        start.shift_in_place(&update, &h);
        proof {
            assert(*start == s0.spec_shift(rk8_update::<S>(f0, f1, f2, f3, f4, f5, f6, f7, f8, f9), h));
            assert(rk8_step_rel(diff_eq, s0, h, *start));
        }
    }

    /// The non-mutating form: one 10-stage step applied to a clone of
    /// `start` (whatever the host's `clone` returned for it).
    fn propagate<D: Fn(&S) -> S::Derivative>(
        &mut self,
        start: &S,
        diff_eq: D,
        step: StepSize<S::Scalar>,
    ) -> (r: S)
        ensures
            *final(self) == *old(self),
            exists|c: S|
                #[trigger] call_ensures(<S as Clone>::clone, (start,), c) && rk8_step_rel(
                    diff_eq,
                    c,
                    step.spec_resolved(old(self).default_step),
                    r,
                ),
    {
        let mut result = start.clone();
        self.propagate_in_place(&mut result, diff_eq, step);
        result
    }
}

} // verus!

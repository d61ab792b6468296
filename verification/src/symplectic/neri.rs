use vstd::prelude::*;

use super::integration::Integrator;
use super::integration::StepSize;
use super::traits::State;
use crate::traits::Scalar;

verus! {

/// The 4th-order symplectic composition of Neri and Yoshida: 4
/// position sub-steps and 3 momentum sub-steps whose coefficients are
/// built from the real cube root of 2 and sum exactly to the step.
/// Being a time-symmetric composition it is exactly reversible: a step
/// of `h` followed by a step of `-h` returns the starting state up to
/// rounding in the host's scalar.
pub struct NeriIntegrator<Sc: Scalar> {
    pub default_step: Sc,
}

impl<Sc: Scalar> NeriIntegrator<Sc> {
    pub fn new(step_size: Sc) -> (r: Self)
        ensures
            r.default_step == step_size,
    {
        NeriIntegrator { default_step: step_size }
    }

    pub fn set_default_step(&mut self, step: Sc)
        ensures
            final(self).default_step == step,
    {
        self.default_step = step;
    }
}

/// One Neri step from `s0` to `s_end` over `h`: position and momentum
/// sub-steps alternate with coefficients `c1, d1, c2, d2, c2, d1, c1`,
/// where `c1 = 1/(2*(2 - 2^(1/3)))`, `c2 = (1 - 2^(1/3))/(2*(2 -
/// 2^(1/3)))`, `d1 = 1/(2 - 2^(1/3))` and `d2 = -2^(1/3)/(2 -
/// 2^(1/3))`, each applied over `h`, and each stage derivative comes
/// from the respective derivative function at the state reached so
/// far.
pub open spec fn neri_step_rel<
    S: State,
    D1: Fn(&S) -> S::PositionDerivative,
    D2: Fn(&S) -> S::MomentumDerivative,
>(pos_diff_eq: D1, momentum_diff_eq: D2, s0: S, h: S::Scalar, s_end: S) -> bool {
    let one = S::Scalar::spec_ratio(1, 1);
    let two = S::Scalar::spec_ratio(2, 1);
    let cbrt2 = two.spec_cbrt();
    let denom = two.spec_minus(cbrt2);
    let c1 = S::Scalar::spec_ratio(1, 2).spec_divided(denom);
    let c2 = one.spec_minus(cbrt2).spec_divided(two).spec_divided(denom);
    let d1 = one.spec_divided(denom);
    let d2 = cbrt2.spec_negated().spec_divided(denom);
    exists|p1: S::PositionDerivative|
        #[trigger] call_ensures(pos_diff_eq, (&s0,), p1) && ({
            let s1 = s0.spec_shift_position(p1, h.spec_times(c1));
            exists|m1: S::MomentumDerivative|
                #[trigger] call_ensures(momentum_diff_eq, (&s1,), m1) && ({
                    let s2 = s1.spec_shift_momentum(m1, h.spec_times(d1));
                    exists|p2: S::PositionDerivative|
                        #[trigger] call_ensures(pos_diff_eq, (&s2,), p2) && ({
                            let s3 = s2.spec_shift_position(p2, h.spec_times(c2));
                            exists|m2: S::MomentumDerivative|
                                #[trigger] call_ensures(momentum_diff_eq, (&s3,), m2) && ({
                                    let s4 = s3.spec_shift_momentum(m2, h.spec_times(d2));
                                    exists|p3: S::PositionDerivative|
                                        #[trigger] call_ensures(pos_diff_eq, (&s4,), p3) && ({
                                            let s5 = s4.spec_shift_position(p3, h.spec_times(c2));
                                            exists|m3: S::MomentumDerivative|
                                                #[trigger] call_ensures(
                                                    momentum_diff_eq,
                                                    (&s5,),
                                                    m3,
                                                ) && ({
                                                    let s6 = s5.spec_shift_momentum(
                                                        m3,
                                                        h.spec_times(d1),
                                                    );
                                                    exists|p4: S::PositionDerivative|
                                                        #[trigger] call_ensures(
                                                            pos_diff_eq,
                                                            (&s6,),
                                                            p4,
                                                        ) && s_end == s6.spec_shift_position(
                                                            p4,
                                                            h.spec_times(c1),
                                                        )
                                                })
                                        })
                                })
                        })
                })
        })
}

impl<S: State> Integrator<S> for NeriIntegrator<S::Scalar> {
    /// One Neri step: the state advances by exactly the 7-stage
    /// alternating composition over the resolved step, and the
    /// integrator's configuration is never changed.
    fn propagate_in_place<D1: Fn(&S) -> S::PositionDerivative, D2: Fn(&S) -> S::MomentumDerivative>(
        &mut self,
        start: &mut S,
        pos_diff_eq: D1,
        momentum_diff_eq: D2,
        step_size: StepSize<S::Scalar>,
    )
        ensures
            *final(self) == *old(self),
            neri_step_rel(
                pos_diff_eq,
                momentum_diff_eq,
                *old(start),
                step_size.spec_resolved(old(self).default_step),
                *final(start),
            ),
    {
        let h = match step_size {
            StepSize::UseDefault => self.default_step,
            StepSize::Step(x) => x,
        };

        let one = S::Scalar::ratio(1, 1);
        let two = S::Scalar::ratio(2, 1);
        let cbrt2 = two.cbrt();
        let denom = two.minus(&cbrt2);

        let c1 = S::Scalar::ratio(1, 2).divided(&denom);
        let c2 = one.minus(&cbrt2).divided(&two).divided(&denom);
        let c3 = c2;
        let c4 = c1;

        let d1 = one.divided(&denom);
        let d2 = cbrt2.negated().divided(&denom);
        let d3 = d1;

        start.shift_position_in_place(&pos_diff_eq(start), &h.times(&c1));
        start.shift_momentum_in_place(&momentum_diff_eq(start), &h.times(&d1));
        start.shift_position_in_place(&pos_diff_eq(start), &h.times(&c2));
        start.shift_momentum_in_place(&momentum_diff_eq(start), &h.times(&d2));
        start.shift_position_in_place(&pos_diff_eq(start), &h.times(&c3));
        start.shift_momentum_in_place(&momentum_diff_eq(start), &h.times(&d3));
        start.shift_position_in_place(&pos_diff_eq(start), &h.times(&c4));
    }

    /// The non-mutating form: one composition step applied to a clone
    /// of `start` (whatever the host's `clone` returned for it).
    fn propagate<D1: Fn(&S) -> S::PositionDerivative, D2: Fn(&S) -> S::MomentumDerivative>(
        &mut self,
        start: &S,
        pos_diff_eq: D1,
        momentum_diff_eq: D2,
        step: StepSize<S::Scalar>,
    ) -> (r: S)
        ensures
            *final(self) == *old(self),
            exists|c: S|
                #[trigger] call_ensures(<S as Clone>::clone, (start,), c) && neri_step_rel(
                    pos_diff_eq,
                    momentum_diff_eq,
                    c,
                    step.spec_resolved(old(self).default_step),
                    r,
                ),
    {
        let mut result = start.clone();
        self.propagate_in_place(&mut result, pos_diff_eq, momentum_diff_eq, step);
        result
    }
}

} // verus!

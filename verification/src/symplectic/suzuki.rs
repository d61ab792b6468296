use vstd::prelude::*;

use super::integration::Integrator;
use super::integration::StepSize;
use super::traits::State;
use crate::traits::Scalar;

verus! {

/// Suzuki's 4th-order symplectic composition: 6 position sub-steps and
/// 5 momentum sub-steps whose coefficients are built from the real
/// cube root of 4 and sum exactly to the step. Like the Neri
/// composition it is time-symmetric and therefore exactly reversible
/// up to rounding in the host's scalar.
pub struct SuzukiIntegrator<Sc: Scalar> {
    pub default_step: Sc,
}

impl<Sc: Scalar> SuzukiIntegrator<Sc> {
    pub fn new(step_size: Sc) -> (r: Self)
        ensures
            r.default_step == step_size,
    {
        SuzukiIntegrator { default_step: step_size }
    }

    pub fn set_default_step(&mut self, step: Sc)
        ensures
            final(self).default_step == step,
    {
        self.default_step = step;
    }
}

/// One Suzuki step from `s0` to `s_end` over `h`: with `l = 1/(4 -
/// 4^(1/3))`, position sub-steps with coefficients `l/2, l, (1 -
/// 3*l)/2, (1 - 3*l)/2, l, l/2` alternate with momentum sub-steps with
/// coefficients `l, l, 1 - 4*l, l, l`, each applied over `h`, and each
/// stage derivative comes from the respective derivative function at
/// the state reached so far.
pub open spec fn suzuki_step_rel<
    S: State,
    D1: Fn(&S) -> S::PositionDerivative,
    D2: Fn(&S) -> S::MomentumDerivative,
>(pos_diff_eq: D1, momentum_diff_eq: D2, s0: S, h: S::Scalar, s_end: S) -> bool {
    let one = S::Scalar::spec_ratio(1, 1);
    let half = S::Scalar::spec_ratio(1, 2);
    let cbrt4 = S::Scalar::spec_ratio(4, 1).spec_cbrt();
    let l = one.spec_divided(S::Scalar::spec_ratio(4, 1).spec_minus(cbrt4));
    let ca = half.spec_times(l);
    let cb = half.spec_times(one.spec_minus(S::Scalar::spec_ratio(3, 1).spec_times(l)));
    let db = one.spec_minus(S::Scalar::spec_ratio(4, 1).spec_times(l));
    exists|p1: S::PositionDerivative|
        #[trigger] call_ensures(pos_diff_eq, (&s0,), p1) && ({
            let s1 = s0.spec_shift_position(p1, h.spec_times(ca));
            exists|m1: S::MomentumDerivative|
                #[trigger] call_ensures(momentum_diff_eq, (&s1,), m1) && ({
                    let s2 = s1.spec_shift_momentum(m1, h.spec_times(l));
                    exists|p2: S::PositionDerivative|
                        #[trigger] call_ensures(pos_diff_eq, (&s2,), p2) && ({
                            let s3 = s2.spec_shift_position(p2, h.spec_times(l));
                            exists|m2: S::MomentumDerivative|
                                #[trigger] call_ensures(momentum_diff_eq, (&s3,), m2) && ({
                                    let s4 = s3.spec_shift_momentum(m2, h.spec_times(l));
                                    exists|p3: S::PositionDerivative|
                                        #[trigger] call_ensures(pos_diff_eq, (&s4,), p3) && ({
                                            let s5 = s4.spec_shift_position(p3, h.spec_times(cb));
                                            exists|m3: S::MomentumDerivative|
                                                #[trigger] call_ensures(
                                                    momentum_diff_eq,
                                                    (&s5,),
                                                    m3,
                                                ) && ({
                                                    let s6 = s5.spec_shift_momentum(
                                                        m3,
                                                        h.spec_times(db),
                                                    );
                                                    suzuki_tail_rel(
                                                        pos_diff_eq,
                                                        momentum_diff_eq,
                                                        s6,
                                                        h,
                                                        s_end,
                                                    )
                                                })
                                        })
                                })
                        })
                })
        })
}

/// The second half of a Suzuki step, from the state `s6` reached after
/// the central momentum sub-step: position coefficients `(1 - 3*l)/2,
/// l, l/2` alternating with momentum coefficients `l, l`.
pub open spec fn suzuki_tail_rel<
    S: State,
    D1: Fn(&S) -> S::PositionDerivative,
    D2: Fn(&S) -> S::MomentumDerivative,
>(pos_diff_eq: D1, momentum_diff_eq: D2, s6: S, h: S::Scalar, s_end: S) -> bool {
    let one = S::Scalar::spec_ratio(1, 1);
    let half = S::Scalar::spec_ratio(1, 2);
    let cbrt4 = S::Scalar::spec_ratio(4, 1).spec_cbrt();
    let l = one.spec_divided(S::Scalar::spec_ratio(4, 1).spec_minus(cbrt4));
    let ca = half.spec_times(l);
    let cb = half.spec_times(one.spec_minus(S::Scalar::spec_ratio(3, 1).spec_times(l)));
    exists|p4: S::PositionDerivative|
        #[trigger] call_ensures(pos_diff_eq, (&s6,), p4) && ({
            let s7 = s6.spec_shift_position(p4, h.spec_times(cb));
            exists|m4: S::MomentumDerivative|
                #[trigger] call_ensures(momentum_diff_eq, (&s7,), m4) && ({
                    let s8 = s7.spec_shift_momentum(m4, h.spec_times(l));
                    exists|p5: S::PositionDerivative|
                        #[trigger] call_ensures(pos_diff_eq, (&s8,), p5) && ({
                            let s9 = s8.spec_shift_position(p5, h.spec_times(l));
                            exists|m5: S::MomentumDerivative|
                                #[trigger] call_ensures(momentum_diff_eq, (&s9,), m5) && ({
                                    let s10 = s9.spec_shift_momentum(m5, h.spec_times(l));
                                    exists|p6: S::PositionDerivative|
                                        #[trigger] call_ensures(pos_diff_eq, (&s10,), p6)
                                            && s_end == s10.spec_shift_position(
                                            p6,
                                            h.spec_times(ca),
                                        )
                                })
                        })
                })
        })
}

impl<S: State> Integrator<S> for SuzukiIntegrator<S::Scalar> {
    /// One Suzuki step: the state advances by exactly the 11-stage
    /// alternating composition over the resolved step, and the
    /// integrator's configuration is never changed.
    fn propagate_in_place<D1: Fn(&S) -> S::PositionDerivative, D2: Fn(&S) -> S::MomentumDerivative>(
        &mut self,
        start: &mut S,
        pos_diff_eq: D1,
        momentum_diff_eq: D2,
        step_size: StepSize<S::Scalar>,
    )
        ensures
            *final(self) == *old(self),
            suzuki_step_rel(
                pos_diff_eq,
                momentum_diff_eq,
                *old(start),
                step_size.spec_resolved(old(self).default_step),
                *final(start),
            ),
    {
        let h = match step_size {
            StepSize::UseDefault => self.default_step,
            StepSize::Step(x) => x,
        };

        let one = S::Scalar::ratio(1, 1);
        let half = S::Scalar::ratio(1, 2);
        let cbrt4 = S::Scalar::ratio(4, 1).cbrt();
        let l = one.divided(&S::Scalar::ratio(4, 1).minus(&cbrt4));

        let c1 = half.times(&l);
        let c2 = l;
        let c3 = half.times(&one.minus(&S::Scalar::ratio(3, 1).times(&l)));
        let c4 = c3;
        let c5 = l;
        let c6 = c1;

        let d1 = l;
        let d2 = l;
        let d3 = one.minus(&S::Scalar::ratio(4, 1).times(&l));
        let d4 = l;
        let d5 = l;

        start.shift_position_in_place(&pos_diff_eq(start), &h.times(&c1));
        start.shift_momentum_in_place(&momentum_diff_eq(start), &h.times(&d1));
        start.shift_position_in_place(&pos_diff_eq(start), &h.times(&c2));
        start.shift_momentum_in_place(&momentum_diff_eq(start), &h.times(&d2));
        start.shift_position_in_place(&pos_diff_eq(start), &h.times(&c3));
        start.shift_momentum_in_place(&momentum_diff_eq(start), &h.times(&d3));
        start.shift_position_in_place(&pos_diff_eq(start), &h.times(&c4));
        start.shift_momentum_in_place(&momentum_diff_eq(start), &h.times(&d4));
        start.shift_position_in_place(&pos_diff_eq(start), &h.times(&c5));
        start.shift_momentum_in_place(&momentum_diff_eq(start), &h.times(&d5));
        start.shift_position_in_place(&pos_diff_eq(start), &h.times(&c6));
    }

    /// The non-mutating form: one composition step applied to a clone
    /// of `start` (whatever the host's `clone` returned for it).
    fn propagate<D1: Fn(&S) -> S::PositionDerivative, D2: Fn(&S) -> S::MomentumDerivative>(
        &mut self,
        start: &S,
        pos_diff_eq: D1,
        momentum_diff_eq: D2,
        step: StepSize<S::Scalar>,
    ) -> (r: S)
        ensures
            *final(self) == *old(self),
            exists|c: S|
                #[trigger] call_ensures(<S as Clone>::clone, (start,), c) && suzuki_step_rel(
                    pos_diff_eq,
                    momentum_diff_eq,
                    c,
                    step.spec_resolved(old(self).default_step),
                    r,
                ),
    {
        let mut result = start.clone();
        self.propagate_in_place(&mut result, pos_diff_eq, momentum_diff_eq, step);
        result
    }
}

} // verus!

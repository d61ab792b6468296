use vstd::prelude::*;

use crate::traits::Scalar;
use crate::traits::State;

mod dormand_prince;
mod rk4;
mod rk8;

pub use dormand_prince::DPIntegrator;
pub use dormand_prince::STEP_RETRY_LIMIT;
pub use dormand_prince::dp_attempt;
pub use dormand_prince::dp_clamped;
pub use dormand_prince::dp_controlled;
pub use dormand_prince::dp_step_rel;
pub use dormand_prince::lemma_clamp_monotone;
pub use dormand_prince::lemma_dp_step_deterministic;
pub use dormand_prince::lemma_reset_is_fresh;
pub use rk4::RK4Integrator;
pub use rk4::rk4_step_rel;
pub use rk8::RK8Integrator;
pub use rk8::rk8_step_rel;

verus! {

/// Per-call choice of step size: the integrator's current default, or
/// an explicit value for this call alone.
#[derive(Clone, Copy, Debug, PartialEq)]
pub enum StepSize<Sc: Scalar> {
    UseDefault,
    Step(Sc),
}

impl<Sc: Scalar> StepSize<Sc> {
    /// The step a call with this selector uses, given the integrator's
    /// current default step.
    pub open spec fn spec_resolved(self, default: Sc) -> Sc {
        match self {
            StepSize::UseDefault => default,
            StepSize::Step(x) => x,
        }
    }
}

/// An integrator for a first-order system `ds/dt = diff_eq(s)`. Each
/// call advances `start` by one discrete step; the non-mutating form is
/// clone-then-mutate for every integrator.
pub trait Integrator<S: State> {
    fn propagate_in_place<D: Fn(&S) -> S::Derivative>(
        &mut self,
        start: &mut S,
        diff_eq: D,
        step: StepSize<S::Scalar>,
    )
        requires
            forall|s: S| #[trigger] call_requires(diff_eq, (&s,)),
    ;

    fn propagate<D: Fn(&S) -> S::Derivative>(
        &mut self,
        start: &S,
        diff_eq: D,
        step: StepSize<S::Scalar>,
    ) -> S
        requires
            forall|s: S| #[trigger] call_requires(diff_eq, (&s,)),
    {
        let mut result = start.clone();
        self.propagate_in_place(&mut result, diff_eq, step);
        result
    }
}

} // verus!

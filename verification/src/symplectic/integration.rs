use vstd::prelude::*;

use super::traits::State;
use crate::traits::Scalar;

pub use super::neri::NeriIntegrator;
pub use super::suzuki::SuzukiIntegrator;

verus! {

/// Per-call choice of step size: the integrator's current default, or
/// an explicit value for this call alone.
#[derive(Clone, Copy, Debug, PartialEq)]
pub enum StepSize<Sc: Scalar> {
    UseDefault,
    Step(Sc),
}

impl<Sc: Scalar> StepSize<Sc> {
    /// The step a call with this selector uses, given the integrator's
    /// current default step.
    pub open spec fn spec_resolved(self, default: Sc) -> Sc {
        match self {
            StepSize::UseDefault => default,
            StepSize::Step(x) => x,
        }
    }
}

/// An integrator for a separable Hamiltonian system, driven by one
/// derivative function for the position part and one for the momentum
/// part. Each call advances `start` by one discrete step; the
/// non-mutating form is clone-then-mutate for every integrator.
pub trait Integrator<S: State> {
    fn propagate_in_place<D1: Fn(&S) -> S::PositionDerivative, D2: Fn(&S) -> S::MomentumDerivative>(
        &mut self,
        start: &mut S,
        pos_diff_eq: D1,
        momentum_diff_eq: D2,
        step: StepSize<S::Scalar>,
    )
        requires
            forall|s: S| #[trigger] call_requires(pos_diff_eq, (&s,)),
            forall|s: S| #[trigger] call_requires(momentum_diff_eq, (&s,)),
    ;

    fn propagate<D1: Fn(&S) -> S::PositionDerivative, D2: Fn(&S) -> S::MomentumDerivative>(
        &mut self,
        start: &S,
        pos_diff_eq: D1,
        momentum_diff_eq: D2,
        step: StepSize<S::Scalar>,
    ) -> S
        requires
            forall|s: S| #[trigger] call_requires(pos_diff_eq, (&s,)),
            forall|s: S| #[trigger] call_requires(momentum_diff_eq, (&s,)),
    {
        let mut result = start.clone();
        self.propagate_in_place(&mut result, pos_diff_eq, momentum_diff_eq, step);
        result
    }
}

} // verus!

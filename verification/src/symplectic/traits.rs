use vstd::prelude::*;

use crate::traits::Scalar;

verus! {

/// A point of a separable Hamiltonian system's phase space: position
/// and momentum evolve through two independent derivative types, and
/// the composition integrators advance them by alternating sub-steps.
/// As with the non-symplectic `State`, `spec_shift_position` and
/// `spec_shift_momentum` name what the updates mean for the host's
/// type; each must act as true vector-space update of the respective
/// half of the state, scaled by `amount`. The derivative types need
/// no norm of their own.
pub trait State: Sized + Clone {
    type Scalar: Scalar;

    type PositionDerivative;

    type MomentumDerivative;

    /// The state whose position part is shifted by `dir * amount`.
    spec fn spec_shift_position(self, dir: Self::PositionDerivative, amount: Self::Scalar) -> Self;

    /// The state whose momentum part is shifted by `dir * amount`.
    spec fn spec_shift_momentum(self, dir: Self::MomentumDerivative, amount: Self::Scalar) -> Self;

    /// The state whose position part is shifted by `dir * amount`,
    /// leaving `self` unchanged.
    fn shift_position(&self, dir: &Self::PositionDerivative, amount: &Self::Scalar) -> (r: Self)
        ensures
            r == self.spec_shift_position(*dir, *amount),
    ;

    /// Shifts the position part of `self` by `dir * amount`.
    fn shift_position_in_place(&mut self, dir: &Self::PositionDerivative, amount: &Self::Scalar)
        ensures
            *final(self) == old(self).spec_shift_position(*dir, *amount),
    ;

    /// The state whose momentum part is shifted by `dir * amount`,
    /// leaving `self` unchanged.
    fn shift_momentum(&self, dir: &Self::MomentumDerivative, amount: &Self::Scalar) -> (r: Self)
        ensures
            r == self.spec_shift_momentum(*dir, *amount),
    ;

    /// Shifts the momentum part of `self` by `dir * amount`.
    fn shift_momentum_in_place(&mut self, dir: &Self::MomentumDerivative, amount: &Self::Scalar)
        ensures
            *final(self) == old(self).spec_shift_momentum(*dir, *amount),
    ;
}

} // verus!

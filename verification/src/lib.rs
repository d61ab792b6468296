//! Numerical integrators for advancing a dynamical system's state in
//! time, verified with Verus. Fixed-step classical Runge-Kutta methods
//! of 4th and 8th order, the adaptive Dormand-Prince 5(4) embedded
//! pair with automatic step-size control and first-same-as-last
//! derivative reuse, and two 4th-order symplectic composition methods
//! (Neri and Suzuki) for separable Hamiltonian systems.
//!
//! The host owns the state and the derivative functions and supplies
//! the vector-space types the integrators work on, including the
//! scalar: the library never touches a concrete number type, so a host
//! backs `Scalar` with its floating-point type and keeps the algebraic
//! obligations stated on the traits.

mod traits;
pub mod integration;
pub mod symplectic;

pub use traits::Scalar;
pub use traits::State;
pub use traits::StateDerivative;

use vstd::prelude::*;

verus! {

/// The scalar field the integrators compute with. A host supplies an
/// implementation (typically a wrapper around its floating-point
/// type); the integrators only ever build scalars from integer ratios
/// and combine them with these operations. Each operation has a
/// spec-level name, and the exec method must return exactly that
/// value: the integrators' contracts are stated over these names, and
/// an implementation outside the verifier's reach takes on the
/// obligation to satisfy them.
pub trait Scalar: Sized + Copy {
    /// The value this scalar type gives to `num / den`.
    spec fn spec_ratio(num: i64, den: i64) -> Self;

    /// The product `self * other`.
    spec fn spec_times(self, other: Self) -> Self;

    /// The quotient `self / other`.
    spec fn spec_divided(self, other: Self) -> Self;

    /// The difference `self - other`.
    spec fn spec_minus(self, other: Self) -> Self;

    /// The additive inverse `-self`.
    spec fn spec_negated(self) -> Self;

    /// Whether `self < other`.
    spec fn spec_lt(self, other: Self) -> bool;

    /// Whether `self` is exactly zero.
    spec fn spec_is_zero(self) -> bool;

    /// The fourth root `self^(1/4)`.
    spec fn spec_pow_quarter(self) -> Self;

    /// The real cube root of `self`.
    spec fn spec_cbrt(self) -> Self;

    fn ratio(num: i64, den: i64) -> (r: Self)
        ensures
            r == Self::spec_ratio(num, den),
    ;

    fn times(&self, other: &Self) -> (r: Self)
        ensures
            r == self.spec_times(*other),
    ;

    fn divided(&self, other: &Self) -> (r: Self)
        ensures
            r == self.spec_divided(*other),
    ;

    fn minus(&self, other: &Self) -> (r: Self)
        ensures
            r == self.spec_minus(*other),
    ;

    fn negated(&self) -> (r: Self)
        ensures
            r == self.spec_negated(),
    ;

    fn lt(&self, other: &Self) -> (r: bool)
        ensures
            r == self.spec_lt(*other),
    ;

    fn is_zero(&self) -> (r: bool)
        ensures
            r == self.spec_is_zero(),
    ;

    /// Used by adaptive step control.
    fn pow_quarter(&self) -> (r: Self)
        ensures
            r == self.spec_pow_quarter(),
    ;

    /// Used to build symplectic composition coefficients.
    fn cbrt(&self) -> (r: Self)
        ensures
            r == self.spec_cbrt(),
    ;
}

/// A tangent vector paired with a `State`: the vector-space operations
/// every Runge-Kutta tableau combination is built from, plus the norm
/// the adaptive integrator uses for its local-error estimate. As with
/// `Scalar`, each operation is named at the spec level and the exec
/// methods are bound to those names.
pub trait StateDerivative<Sc: Scalar>: Sized + Clone {
    /// The sum `self + other`.
    spec fn spec_plus(self, other: Self) -> Self;

    /// The difference `self - other`.
    spec fn spec_minus(self, other: Self) -> Self;

    /// The scaling `self * k`.
    spec fn spec_scaled(self, k: Sc) -> Self;

    /// The scaling `self / k`.
    spec fn spec_scaled_div(self, k: Sc) -> Self;

    /// The additive inverse `-self`.
    spec fn spec_negated(self) -> Self;

    /// A magnitude used as the local-error estimate.
    spec fn spec_abs(self) -> Sc;

    fn plus(&self, other: &Self) -> (r: Self)
        ensures
            r == self.spec_plus(*other),
    ;

    fn minus(&self, other: &Self) -> (r: Self)
        ensures
            r == self.spec_minus(*other),
    ;

    fn scaled(&self, k: &Sc) -> (r: Self)
        ensures
            r == self.spec_scaled(*k),
    ;

    fn scaled_div(&self, k: &Sc) -> (r: Self)
        ensures
            r == self.spec_scaled_div(*k),
    ;

    fn negated(&self) -> (r: Self)
        ensures
            r == self.spec_negated(),
    ;

    fn abs(&self) -> (r: Sc)
        ensures
            r == self.spec_abs(),
    ;

    /// The combination `self * num / den`, the shape in which the
    /// tableaus write their rational coefficients.
    fn times_frac(&self, num: i64, den: i64) -> (r: Self)
        ensures
            r == self.spec_scaled(Sc::spec_ratio(num, 1)).spec_scaled_div(
                Sc::spec_ratio(den, 1),
            ),
    {
        self.scaled(&Sc::ratio(num, 1)).scaled_div(&Sc::ratio(den, 1))
    }
}

/// The value `d * num / den`, written as the tableaus write it: a
/// scaling by `num` followed by a scaling-division by `den`.
pub open spec fn spec_times_frac<Sc: Scalar, D: StateDerivative<Sc>>(
    d: D,
    num: i64,
    den: i64,
) -> D {
    d.spec_scaled(Sc::spec_ratio(num, 1)).spec_scaled_div(Sc::spec_ratio(den, 1))
}

/// A point of the host system's configuration space. `spec_shift`
/// names what an update means for the host's type; it must act as
/// true vector-space update `self + dir * amount`: in particular,
/// shifting by `d1` and then by `d2` over the same amount must equal
/// one shift by `d1 + d2`. The integrators rely on this for the
/// correctness of every tableau combination, and their contracts
/// state each step exactly as a composition of `spec_shift`s.
pub trait State: Sized + Clone {
    type Scalar: Scalar;

    type Derivative: StateDerivative<Self::Scalar>;

    /// The state `self + dir * amount`.
    spec fn spec_shift(self, dir: Self::Derivative, amount: Self::Scalar) -> Self;

    /// The state `self + dir * amount`, leaving `self` unchanged.
    fn shift(&self, dir: &Self::Derivative, amount: &Self::Scalar) -> (r: Self)
        ensures
            r == self.spec_shift(*dir, *amount),
    ;

    /// Replaces `self` with `self + dir * amount`.
    fn shift_in_place(&mut self, dir: &Self::Derivative, amount: &Self::Scalar)
        ensures
            *final(self) == old(self).spec_shift(*dir, *amount),
    ;
}

} // verus!

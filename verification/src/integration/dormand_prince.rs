use vstd::prelude::*;

use super::Integrator;
use super::StepSize;
use crate::traits::spec_times_frac;
use crate::traits::Scalar;
use crate::traits::State;
use crate::traits::StateDerivative;

verus! {

/// How many times one call may reject and retry its step. The retry
/// descent stops by itself once the controlled step reaches a positive
/// `min_step` (a step at `min_step` is never rejected, since the
/// clamped default cannot fall below 0.8 of it), so this bound only
/// cuts off pathological configurations such as a non-positive
/// `min_step`; whether those deserve a real failure path is an open
/// robustness question. The bound exists because the verifier asks
/// every loop to terminate; exhausting it accepts the attempt in hand.
pub const STEP_RETRY_LIMIT: u64 = 256;

/// The Dormand-Prince embedded pair of order 5(4): a 7-stage 5th-order
/// step with an embedded 4th-order error estimate, automatic step-size
/// control clamped into `[min_step, max_step]`, step rejection with
/// retry when the request used the default step, and first-same-as-last
/// reuse of the final derivative evaluation.
pub struct DPIntegrator<S: State> {
    /// The step used when a call asks for `StepSize::UseDefault`;
    /// rewritten by the error controller after every call.
    pub default_step: S::Scalar,
    /// The step the integrator was constructed with, restored by
    /// `reset_default_step` and `reset`.
    pub original_default_step: S::Scalar,
    /// Target local-error tolerance.
    pub max_err: S::Scalar,
    /// Lower clamp for the controlled default step.
    pub min_step: S::Scalar,
    /// Upper clamp for the controlled default step.
    pub max_step: S::Scalar,
    /// The previous accepted step's final derivative evaluation, valid
    /// as the next step's first evaluation because both happen at the
    /// same state.
    pub last_derivative: Option<S::Derivative>,
}

impl<S: State> DPIntegrator<S> {
    /// The exact configuration a freshly constructed integrator holds.
    /// `new` establishes it and `reset` restores it, so the two leave
    /// the integrator in identical states.
    pub open spec fn initial_config(
        default_step: S::Scalar,
        min_step: S::Scalar,
        max_step: S::Scalar,
        max_err: S::Scalar,
    ) -> Self {
        DPIntegrator {
            default_step: default_step,
            original_default_step: default_step,
            min_step: min_step,
            max_step: max_step,
            max_err: max_err,
            last_derivative: None,
        }
    }

    pub fn new(
        default_step: S::Scalar,
        min_step: S::Scalar,
        max_step: S::Scalar,
        max_err: S::Scalar,
    ) -> (r: Self)
        ensures
            r == Self::initial_config(default_step, min_step, max_step, max_err),
    {
        DPIntegrator {
            default_step: default_step,
            original_default_step: default_step,
            min_step: min_step,
            max_step: max_step,
            max_err: max_err,
            last_derivative: None,
        }
    }

    /// Restores the default step to its originally configured value
    /// without touching the cached derivative.
    pub fn reset_default_step(&mut self)
        ensures
            final(self).default_step == old(self).original_default_step,
            final(self).original_default_step == old(self).original_default_step,
            final(self).min_step == old(self).min_step,
            final(self).max_step == old(self).max_step,
            final(self).max_err == old(self).max_err,
            final(self).last_derivative == old(self).last_derivative,
    {
        self.default_step = self.original_default_step;
    }

    /// Restores the default step and clears the cached derivative,
    /// returning the integrator to exactly its freshly constructed
    /// configuration. Used e.g. after a discontinuity or when
    /// reversing direction, since a cached derivative from the
    /// opposite direction is invalid.
    pub fn reset(&mut self)
        ensures
            *final(self) == Self::initial_config(
                old(self).original_default_step,
                old(self).min_step,
                old(self).max_step,
                old(self).max_err,
            ),
    {
        self.last_derivative = None;
        self.reset_default_step();
    }
}

/// Reset semantics: `reset` leaves an integrator in exactly the state
/// `new` builds from the same configuration. Every later call reads
/// only the integrator's state and its arguments, so a reset
/// integrator and a freshly constructed one behave identically.
pub proof fn lemma_reset_is_fresh<S: State>(after_reset: DPIntegrator<S>, fresh: DPIntegrator<S>)
    requires
        after_reset == DPIntegrator::<S>::initial_config(
            fresh.original_default_step,
            fresh.min_step,
            fresh.max_step,
            fresh.max_err,
        ),
        fresh == DPIntegrator::<S>::initial_config(
            fresh.original_default_step,
            fresh.min_step,
            fresh.max_step,
            fresh.max_err,
        ),
    ensures
        after_reset == fresh,
{
}

/// Where the first stage derivative of an attempt from `s0` may come
/// from: the cached value of the previous accepted step, or a fresh
/// evaluation of `diff_eq` at `s0` (always the latter once a retry has
/// consumed the cache).
pub open spec fn dp_first_stage<S: State, D: Fn(&S) -> S::Derivative>(
    diff_eq: D,
    s0: S,
    cache0: Option<S::Derivative>,
    k1: S::Derivative,
) -> bool {
    cache0 == Some(k1) || call_ensures(diff_eq, (&s0,), k1)
}

/// The trial state of the 2nd Dormand-Prince stage.
pub open spec fn dp_trial2<S: State>(s0: S, k1: S::Derivative, h: S::Scalar) -> S {
    s0.spec_shift(k1.spec_scaled_div(S::Scalar::spec_ratio(5, 1)), h)
}

/// The trial state of the 3rd Dormand-Prince stage.
pub open spec fn dp_trial3<S: State>(
    s0: S,
    k1: S::Derivative,
    k2: S::Derivative,
    h: S::Scalar,
) -> S {
    s0.spec_shift(spec_times_frac(k1, 3, 40).spec_plus(spec_times_frac(k2, 9, 40)), h)
}

/// The trial state of the 4th Dormand-Prince stage.
pub open spec fn dp_trial4<S: State>(
    s0: S,
    k1: S::Derivative,
    k2: S::Derivative,
    k3: S::Derivative,
    h: S::Scalar,
) -> S {
    s0.spec_shift(
        spec_times_frac(k1, 44, 45).spec_minus(spec_times_frac(k2, 56, 15)).spec_plus(
            spec_times_frac(k3, 32, 9),
        ),
        h,
    )
}

/// The trial state of the 5th Dormand-Prince stage.
pub open spec fn dp_trial5<S: State>(
    s0: S,
    k1: S::Derivative,
    k2: S::Derivative,
    k3: S::Derivative,
    k4: S::Derivative,
    h: S::Scalar,
) -> S {
    s0.spec_shift(
        spec_times_frac(k1, 19372, 6561).spec_minus(spec_times_frac(k2, 25360, 2187)).spec_plus(
            spec_times_frac(k3, 64448, 6561),
        ).spec_minus(spec_times_frac(k4, 212, 729)),
        h,
    )
}

/// The trial state of the 6th Dormand-Prince stage.
pub open spec fn dp_trial6<S: State>(
    s0: S,
    k1: S::Derivative,
    k2: S::Derivative,
    k3: S::Derivative,
    k4: S::Derivative,
    k5: S::Derivative,
    h: S::Scalar,
) -> S {
    s0.spec_shift(
        spec_times_frac(k1, 9017, 3168).spec_minus(spec_times_frac(k2, 355, 33)).spec_plus(
            spec_times_frac(k3, 46732, 5247),
        ).spec_plus(spec_times_frac(k4, 49, 176)).spec_minus(spec_times_frac(k5, 5103, 18656)),
        h,
    )
}

/// The accepted 5th-order update: `s0` shifted by the weighted
/// combination of stages 1, 3, 4, 5 and 6 over `h`.
pub open spec fn dp_update<S: State>(
    s0: S,
    k1: S::Derivative,
    k3: S::Derivative,
    k4: S::Derivative,
    k5: S::Derivative,
    k6: S::Derivative,
    h: S::Scalar,
) -> S {
    s0.spec_shift(
        spec_times_frac(k1, 35, 384).spec_plus(spec_times_frac(k3, 500, 1113)).spec_plus(
            spec_times_frac(k4, 125, 192),
        ).spec_minus(spec_times_frac(k5, 2187, 6784)).spec_plus(spec_times_frac(k6, 11, 84)),
        h,
    )
}

/// The scalar local-error estimate: the norm of `h` times the
/// difference between the 5th-order and embedded 4th-order
/// combinations, with the fixed Dormand-Prince error coefficients.
pub open spec fn dp_error<Sc: Scalar, D: StateDerivative<Sc>>(
    k1: D,
    k3: D,
    k4: D,
    k5: D,
    k6: D,
    k7: D,
    h: Sc,
) -> Sc {
    spec_times_frac(k1, 71, 57600).spec_minus(spec_times_frac(k3, 71, 16695)).spec_plus(
        spec_times_frac(k4, 71, 1920),
    ).spec_minus(spec_times_frac(k5, 17253, 339200)).spec_plus(spec_times_frac(k6, 22, 525))
        .spec_minus(k7.spec_scaled_div(Sc::spec_ratio(40, 1))).spec_scaled(h).spec_abs()
}

/// `x` clamped into `[min_step, max_step]`, exactly as the controller
/// applies it: raised to `min_step` first, then lowered to `max_step`.
pub open spec fn dp_clamped<Sc: Scalar>(x: Sc, min_step: Sc, max_step: Sc) -> Sc {
    let raised = if x.spec_lt(min_step) {
        min_step
    } else {
        x
    };
    if max_step.spec_lt(raised) {
        max_step
    } else {
        raised
    }
}

/// Adaptive convergence, the library's share: clamping preserves
/// order. If one controller suggestion does not exceed another, the
/// defaults clamped into `[min_step, max_step]` keep that order, given
/// bounds in order and a transitive, total ordering on the scalars.
/// That the raw suggestions themselves respond monotonically to the
/// tolerance is a fact about the host scalar's division and fourth
/// root, outside these contracts.
pub proof fn lemma_clamp_monotone<Sc: Scalar>(a: Sc, b: Sc, min_step: Sc, max_step: Sc)
    requires
        !b.spec_lt(a),
        !max_step.spec_lt(min_step),
        forall|x: Sc, y: Sc, z: Sc|
            !#[trigger] y.spec_lt(x) && !#[trigger] z.spec_lt(y) ==> !z.spec_lt(x),
        forall|x: Sc, y: Sc| #[trigger] x.spec_lt(y) ==> !y.spec_lt(x),
    ensures
        !dp_clamped(b, min_step, max_step).spec_lt(dp_clamped(a, min_step, max_step)),
{
}

/// The default step the controller leaves after an attempt with step
/// `h` and error estimate `error`: `h * (max_err / error)^(1/4)` for a
/// nonzero estimate, `max_step` for a zero one (avoiding the division
/// by zero while growing the step maximally), clamped either way.
pub open spec fn dp_controlled<Sc: Scalar>(
    h: Sc,
    error: Sc,
    max_err: Sc,
    min_step: Sc,
    max_step: Sc,
) -> Sc {
    if !error.spec_is_zero() {
        dp_clamped(h.spec_times(max_err.spec_divided(error).spec_pow_quarter()), min_step, max_step)
    } else {
        dp_clamped(max_step, min_step, max_step)
    }
}

/// One Dormand-Prince attempt from `s0` with step `h`, written out
/// over its stage derivatives: the first stage comes from the cache
/// or a fresh evaluation, stages 2..7 come from `diff_eq` at the
/// tableau's trial states, `s_end` is the 5th-order update, the 7th
/// stage (evaluated at `s_end` itself) is cached for
/// first-same-as-last reuse, and `new_default` is the clamped
/// controller output for this attempt's error estimate.
pub open spec fn dp_attempt<S: State, D: Fn(&S) -> S::Derivative>(
    diff_eq: D,
    s0: S,
    cache0: Option<S::Derivative>,
    max_err: S::Scalar,
    min_step: S::Scalar,
    max_step: S::Scalar,
    h: S::Scalar,
    k1: S::Derivative,
    k2: S::Derivative,
    k3: S::Derivative,
    k4: S::Derivative,
    k5: S::Derivative,
    k6: S::Derivative,
    k7: S::Derivative,
    s_end: S,
    new_default: S::Scalar,
    cache_end: Option<S::Derivative>,
) -> bool {
    &&& dp_first_stage(diff_eq, s0, cache0, k1)
    &&& call_ensures(diff_eq, (&dp_trial2(s0, k1, h),), k2)
    &&& call_ensures(diff_eq, (&dp_trial3(s0, k1, k2, h),), k3)
    &&& call_ensures(diff_eq, (&dp_trial4(s0, k1, k2, k3, h),), k4)
    &&& call_ensures(diff_eq, (&dp_trial5(s0, k1, k2, k3, k4, h),), k5)
    &&& call_ensures(diff_eq, (&dp_trial6(s0, k1, k2, k3, k4, k5, h),), k6)
    &&& s_end == dp_update(s0, k1, k3, k4, k5, k6, h)
    &&& call_ensures(diff_eq, (&s_end,), k7)
    &&& cache_end == Some(k7)
    &&& new_default == dp_controlled(
        h,
        dp_error(k1, k3, k4, k5, k6, k7, h),
        max_err,
        min_step,
        max_step,
    )
}

/// One accepted Dormand-Prince attempt: some stage derivatives
/// satisfying `dp_attempt` exist.
pub open spec fn dp_step_rel<S: State, D: Fn(&S) -> S::Derivative>(
    diff_eq: D,
    s0: S,
    cache0: Option<S::Derivative>,
    max_err: S::Scalar,
    min_step: S::Scalar,
    max_step: S::Scalar,
    h_used: S::Scalar,
    s_end: S,
    new_default: S::Scalar,
    cache_end: Option<S::Derivative>,
) -> bool {
    exists|
        k1: S::Derivative,
        k2: S::Derivative,
        k3: S::Derivative,
        k4: S::Derivative,
        k5: S::Derivative,
        k6: S::Derivative,
        k7: S::Derivative,
    |
        #[trigger] dp_attempt(
            diff_eq,
            s0,
            cache0,
            max_err,
            min_step,
            max_step,
            h_used,
            k1,
            k2,
            k3,
            k4,
            k5,
            k6,
            k7,
            s_end,
            new_default,
            cache_end,
        )
}

/// First-same-as-last transparency and reset determinism: when
/// `diff_eq` is a pure function (equal states give equal derivatives)
/// and each cache, where present, holds a `diff_eq` value at the
/// starting state (which is exactly what the integrator's own
/// contract guarantees of a cache it wrote), two accepted attempts
/// from the same state with the same step produce the same resulting
/// state, the same new default step and the same cache - whether
/// their first stages came from a cache or from fresh evaluations. So
/// the cache never alters the trajectory, a replay with the accepted
/// steps made explicit reproduces it, and a reset integrator's next
/// call matches a fresh one's.
pub proof fn lemma_dp_step_deterministic<S: State, D: Fn(&S) -> S::Derivative>(
    diff_eq: D,
    s0: S,
    cache_a: Option<S::Derivative>,
    cache_b: Option<S::Derivative>,
    max_err: S::Scalar,
    min_step: S::Scalar,
    max_step: S::Scalar,
    h: S::Scalar,
    end_a: S,
    end_b: S,
    default_a: S::Scalar,
    default_b: S::Scalar,
    out_a: Option<S::Derivative>,
    out_b: Option<S::Derivative>,
)
    requires
        forall|s: S, r1: S::Derivative, r2: S::Derivative|
            #[trigger] call_ensures(diff_eq, (&s,), r1) && #[trigger] call_ensures(
                diff_eq,
                (&s,),
                r2,
            ) ==> r1 == r2,
        (match cache_a {
            Some(k) => call_ensures(diff_eq, (&s0,), k),
            None => true,
        }),
        (match cache_b {
            Some(k) => call_ensures(diff_eq, (&s0,), k),
            None => true,
        }),
        dp_step_rel(diff_eq, s0, cache_a, max_err, min_step, max_step, h, end_a, default_a, out_a),
        dp_step_rel(diff_eq, s0, cache_b, max_err, min_step, max_step, h, end_b, default_b, out_b),
    ensures
        end_a == end_b,
        default_a == default_b,
        out_a == out_b,
{
    let (a1, a2, a3, a4, a5, a6, a7) = choose|
        k1: S::Derivative,
        k2: S::Derivative,
        k3: S::Derivative,
        k4: S::Derivative,
        k5: S::Derivative,
        k6: S::Derivative,
        k7: S::Derivative,
    |
        dp_attempt(
            diff_eq,
            s0,
            cache_a,
            max_err,
            min_step,
            max_step,
            h,
            k1,
            k2,
            k3,
            k4,
            k5,
            k6,
            k7,
            end_a,
            default_a,
            out_a,
        );
    let (b1, b2, b3, b4, b5, b6, b7) = choose|
        k1: S::Derivative,
        k2: S::Derivative,
        k3: S::Derivative,
        k4: S::Derivative,
        k5: S::Derivative,
        k6: S::Derivative,
        k7: S::Derivative,
    |
        dp_attempt(
            diff_eq,
            s0,
            cache_b,
            max_err,
            min_step,
            max_step,
            h,
            k1,
            k2,
            k3,
            k4,
            k5,
            k6,
            k7,
            end_b,
            default_b,
            out_b,
        );
    assert(call_ensures(diff_eq, (&s0,), a1));
    assert(call_ensures(diff_eq, (&s0,), b1));
    assert(a1 == b1);
    assert(a2 == b2);
    assert(a3 == b3);
    assert(a4 == b4);
    assert(a5 == b5);
    assert(a6 == b6);
    assert(end_a == end_b);
    assert(a7 == b7);
}

impl<S: State> Integrator<S> for DPIntegrator<S> {
    /// One adaptive step. The result is an accepted attempt per
    /// `dp_step_rel`: trial states follow the Dormand-Prince tableau,
    /// the written-back state is the 5th-order update, the cache holds
    /// the derivative evaluated at that state, and the new default
    /// step is the clamped controller output. When the call asked for
    /// the default step, a rejected attempt (controlled default below
    /// 0.8 of the attempted step) is discarded and retried with the
    /// reduced default, so the accepted step is then one of the
    /// controller's own suggestions; an explicitly requested step is
    /// always accepted as attempted. The bounds, tolerance and
    /// original step are never changed, and the new default step
    /// always lies in `[min_step, max_step]`.
    fn propagate_in_place<D: Fn(&S) -> S::Derivative>(
        &mut self,
        start: &mut S,
        diff_eq: D,
        step_size: StepSize<S::Scalar>,
    )
        ensures
            final(self).original_default_step == old(self).original_default_step,
            final(self).min_step == old(self).min_step,
            final(self).max_step == old(self).max_step,
            final(self).max_err == old(self).max_err,
            final(self).last_derivative is Some,
            final(self).default_step == final(self).min_step
                || final(self).default_step == final(self).max_step
                || (!final(self).default_step.spec_lt(final(self).min_step)
                    && !final(self).max_step.spec_lt(final(self).default_step)),
            exists|h_used: S::Scalar|
                #[trigger] dp_step_rel(
                    diff_eq,
                    *old(start),
                    old(self).last_derivative,
                    old(self).max_err,
                    old(self).min_step,
                    old(self).max_step,
                    h_used,
                    *final(start),
                    final(self).default_step,
                    final(self).last_derivative,
                ),
            step_size is Step ==> dp_step_rel(
                diff_eq,
                *old(start),
                old(self).last_derivative,
                old(self).max_err,
                old(self).min_step,
                old(self).max_step,
                step_size.spec_resolved(old(self).default_step),
                *final(start),
                final(self).default_step,
                final(self).last_derivative,
            ),
    {
        let use_default = matches!(step_size, StepSize::UseDefault);
        let mut h = match step_size {
            StepSize::UseDefault => self.default_step,
            StepSize::Step(x) => x,
        };

        let mut retries_left: u64 = STEP_RETRY_LIMIT;
        loop
            invariant
                self.original_default_step == old(self).original_default_step,
                self.min_step == old(self).min_step,
                self.max_step == old(self).max_step,
                self.max_err == old(self).max_err,
                self.last_derivative == old(self).last_derivative || self.last_derivative is None,
                *start == *old(start),
                use_default == (step_size is UseDefault),
                !use_default ==> h == step_size.spec_resolved(old(self).default_step),
                forall|s: S| #[trigger] call_requires(diff_eq, (&s,)),
            decreases retries_left,
        {
            let k1 = match self.last_derivative.take() {
                Some(d) => d,
                None => diff_eq(start),
            };
            let k2 = diff_eq(&start.shift(&k1.scaled_div(&S::Scalar::ratio(5, 1)), &h));
            let k3 = diff_eq(
                &start.shift(&k1.times_frac(3, 40).plus(&k2.times_frac(9, 40)), &h),
            );
            let k4 = diff_eq(
                &start.shift(
                    &k1.times_frac(44, 45).minus(&k2.times_frac(56, 15)).plus(
                        &k3.times_frac(32, 9),
                    ),
                    &h,
                ),
            );
            let k5 = diff_eq(
                &start.shift(
                    &k1.times_frac(19372, 6561).minus(&k2.times_frac(25360, 2187)).plus(
                        &k3.times_frac(64448, 6561),
                    ).minus(&k4.times_frac(212, 729)),
                    &h,
                ),
            );
            let k6 = diff_eq(
                &start.shift(
                    &k1.times_frac(9017, 3168).minus(&k2.times_frac(355, 33)).plus(
                        &k3.times_frac(46732, 5247),
                    ).plus(&k4.times_frac(49, 176)).minus(&k5.times_frac(5103, 18656)),
                    &h,
                ),
            );

            let new_state = start.shift(
                &k1.times_frac(35, 384).plus(&k3.times_frac(500, 1113)).plus(
                    &k4.times_frac(125, 192),
                ).minus(&k5.times_frac(2187, 6784)).plus(&k6.times_frac(11, 84)),
                &h,
            );

            let k7 = diff_eq(&new_state);

            let error = k1.times_frac(71, 57600).minus(&k3.times_frac(71, 16695)).plus(
                &k4.times_frac(71, 1920),
            ).minus(&k5.times_frac(17253, 339200)).plus(&k6.times_frac(22, 525)).minus(
                &k7.scaled_div(&S::Scalar::ratio(40, 1)),
            ).scaled(&h).abs();

            if !error.is_zero() {
                self.default_step = h.times(&self.max_err.divided(&error).pow_quarter());
            } else {
                // A zero estimate would divide by zero; grow the step
                // as far as the bounds allow instead.
                self.default_step = self.max_step;
            }

            if self.default_step.lt(&self.min_step) {
                self.default_step = self.min_step;
            }
            if self.max_step.lt(&self.default_step) {
                self.default_step = self.max_step;
            }

            // If the controller shrank the step well below the one just
            // attempted, the attempt was too inaccurate: discard it and
            // retry from the unchanged state with the reduced default.
            // An explicit step request is always accepted.
            if use_default && retries_left > 0 && self.default_step.lt(
                &S::Scalar::ratio(4, 5).times(&h),
            ) {
                retries_left = retries_left - 1;
                h = self.default_step;
            } else {
                let ghost s0 = *old(start);
                let ghost g_new = new_state;
                let ghost g_k7 = k7;
                proof {
                    assert(dp_first_stage(diff_eq, s0, old(self).last_derivative, k1));
                    assert(call_ensures(diff_eq, (&dp_trial2(s0, k1, h),), k2));
                    assert(call_ensures(diff_eq, (&dp_trial3(s0, k1, k2, h),), k3));
                    assert(call_ensures(diff_eq, (&dp_trial4(s0, k1, k2, k3, h),), k4));
                    assert(call_ensures(diff_eq, (&dp_trial5(s0, k1, k2, k3, k4, h),), k5));
                    assert(call_ensures(diff_eq, (&dp_trial6(s0, k1, k2, k3, k4, k5, h),), k6));
                    assert(g_new == dp_update(s0, k1, k3, k4, k5, k6, h));
                    assert(call_ensures(diff_eq, (&g_new,), g_k7));
                    assert(self.default_step == dp_controlled(
                        h,
                        dp_error(k1, k3, k4, k5, k6, g_k7, h),
                        self.max_err,
                        self.min_step,
                        self.max_step,
                    ));
                }
                *start = new_state;
                self.last_derivative = Some(k7);
                proof {
                    assert(dp_attempt(
                        diff_eq,
                        *old(start),
                        old(self).last_derivative,
                        old(self).max_err,
                        old(self).min_step,
                        old(self).max_step,
                        h,
                        k1,
                        k2,
                        k3,
                        k4,
                        k5,
                        k6,
                        g_k7,
                        *start,
                        self.default_step,
                        self.last_derivative,
                    ));
                    assert(dp_step_rel(
                        diff_eq,
                        *old(start),
                        old(self).last_derivative,
                        old(self).max_err,
                        old(self).min_step,
                        old(self).max_step,
                        h,
                        *start,
                        self.default_step,
                        self.last_derivative,
                    ));
                }
                return ;
            }
        }
    }

    /// The non-mutating form: one accepted adaptive attempt applied to
    /// a clone of `start` (whatever the host's `clone` returned for
    /// it), with the same controller, cache and clamping behaviour as
    /// the mutating form.
    fn propagate<D: Fn(&S) -> S::Derivative>(
        &mut self,
        start: &S,
        diff_eq: D,
        step: StepSize<S::Scalar>,
    ) -> (r: S)
        ensures
            final(self).original_default_step == old(self).original_default_step,
            final(self).min_step == old(self).min_step,
            final(self).max_step == old(self).max_step,
            final(self).max_err == old(self).max_err,
            final(self).last_derivative is Some,
            final(self).default_step == final(self).min_step
                || final(self).default_step == final(self).max_step
                || (!final(self).default_step.spec_lt(final(self).min_step)
                    && !final(self).max_step.spec_lt(final(self).default_step)),
            exists|c: S|
                #[trigger] call_ensures(<S as Clone>::clone, (start,), c) && (exists|
                    h_used: S::Scalar,
                |
                    #[trigger] dp_step_rel(
                        diff_eq,
                        c,
                        old(self).last_derivative,
                        old(self).max_err,
                        old(self).min_step,
                        old(self).max_step,
                        h_used,
                        r,
                        final(self).default_step,
                        final(self).last_derivative,
                    )),
    {
        let mut result = start.clone();
        self.propagate_in_place(&mut result, diff_eq, step);
        result
    }
}

} // verus!

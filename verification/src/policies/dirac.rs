//! The deterministic policy that plays the output of its approximator.
use crate::algorithms::{spec_lift, Algorithm, LearnerError};
use crate::fa::{
    spec_entries_agree, spec_scaled_entries, Approximator, Differentiable, Entries, Parameterised,
};
use crate::policies::{DifferentiablePolicy, ParameterisedPolicy, Policy};
use crate::scalar::Scalar;
use crate::vector::{mat_scale, mat_sum, same_shape, shapes_agree, spec_mat_scale, spec_mat_sum};
use vstd::prelude::*;

verus! {

/// A point mass on the action that the approximator `fa` computes.
pub struct Dirac<F> {
    pub fa: F,
}

impl<F> Dirac<F> {
    /// A policy that plays the value of `fa`.
    pub fn new(fa: F) -> (pi: Self)
        ensures
            pi.fa == fa,
    {
        Dirac { fa }
    }
}

impl<F> Algorithm for Dirac<F> {
    /// There is nothing to anneal: the policy stays as it is.
    open spec fn spec_ends_episode(self, after: Self) -> bool {
        after == self
    }

    fn handle_terminal(&mut self) {
    }
}

/// One where the action is numerically the most probable one, entry by
/// entry, and zero elsewhere.
pub open spec fn spec_point_mass<R: Scalar>(a: Seq<R>, mpa: Seq<R>) -> R {
    if spec_entries_agree(a, mpa) {
        R::spec_one()
    } else {
        R::spec_zero()
    }
}

/// The entries of the action that a point mass on the output of `fa` plays
/// in `s`.
pub open spec fn spec_dirac_action<S, R: Scalar, F: Approximator<S, R>>(fa: &F, s: S) -> Result<
    Seq<R>,
    LearnerError,
> {
    spec_lift(fa.spec_output(fa.spec_embed(s)))
}

/// Whether `result` is the action with the entries `expected`, or the
/// failure that stands in their place.
pub open spec fn spec_plays<R: Scalar, A: Entries<R>>(
    result: Result<A, LearnerError>,
    expected: Result<Seq<R>, LearnerError>,
) -> bool {
    match (result, expected) {
        (Ok(action), Ok(entries)) => action.spec_entries() == entries,
        (Err(e), Err(failure)) => e == failure,
        _ => false,
    }
}

impl<F> Dirac<F> {
    /// Evaluates the approximator at the features of `s`.
    pub fn action<S, R: Scalar>(&self, s: &S) -> (r: Result<F::Output, LearnerError>) where
        F: Approximator<S, R>,

        ensures
            spec_plays(r, spec_dirac_action(&self.fa, *s)),
    {
        let phi = self.fa.embed(s);
        match self.fa.output(&phi) {
            Ok(value) => Ok(value),
            Err(e) => Err(LearnerError::Approximation(e)),
        }
    }
}

impl<S, R: Scalar, F: Approximator<S, R>> Policy<S, R> for Dirac<F> {
    type Action = F::Output;

    open spec fn spec_probability(&self, s: S, a: F::Output) -> Result<R, LearnerError> {
        match spec_dirac_action(&self.fa, s) {
            Ok(mpa) => Ok(spec_point_mass(a.spec_entries(), mpa)),
            Err(e) => Err(e),
        }
    }

    /// Sampling a point mass gives its only action and changes nothing.
    open spec fn spec_draws(
        self,
        s: S,
        after: Self,
        result: Result<F::Output, LearnerError>,
    ) -> bool {
        spec_plays(result, spec_dirac_action(&self.fa, s)) && after == self
    }

    /// The only action of a point mass is its most probable one.
    open spec fn spec_picks(
        self,
        s: S,
        after: Self,
        result: Result<F::Output, LearnerError>,
    ) -> bool {
        spec_plays(result, spec_dirac_action(&self.fa, s)) && after == self
    }

    fn sample(&mut self, s: &S) -> (r: Result<F::Output, LearnerError>) {
        self.action(s)
    }

    fn mpa(&mut self, s: &S) -> (r: Result<F::Output, LearnerError>) {
        self.action(s)
    }

    fn probability(&self, s: &S, a: F::Output) -> (r: Result<R, LearnerError>) {
        match self.action(s) {
            Ok(mpa) => if a.agrees(&mpa) {
                Ok(R::one())
            } else {
                Ok(R::zero())
            },
            Err(e) => Err(e),
        }
    }
}

impl<R: Scalar, F: Parameterised<R>> Parameterised<R> for Dirac<F> {
    open spec fn spec_weights(&self) -> Seq<Seq<R>> {
        self.fa.spec_weights()
    }

    open spec fn spec_weights_dim(&self) -> (nat, nat) {
        self.fa.spec_weights_dim()
    }

    open spec fn spec_with_weights(self, w: Seq<Seq<R>>) -> Self {
        Dirac { fa: self.fa.spec_with_weights(w) }
    }

    fn weights(&self) -> (w: Vec<Vec<R>>) {
        self.fa.weights()
    }

    fn weights_dim(&self) -> (d: (usize, usize)) {
        self.fa.weights_dim()
    }

    fn set_weights(&mut self, w: Vec<Vec<R>>) {
        self.fa.set_weights(w);
    }
}

impl<S, R: Scalar, F: Differentiable<S, R>> DifferentiablePolicy<S, R> for Dirac<F> {
    /// The Jacobian of the approximator, every entry scaled by the distance
    /// `a - value` between the action and the approximator's value.
    open spec fn spec_grad_log(&self, s: S, a: R) -> Result<Seq<Seq<R>>, LearnerError> {
        let phi = self.fa.spec_embed(s);
        match self.fa.spec_evaluate(phi) {
            Ok(value) => Ok(spec_mat_scale(a.spec_minus(value), self.fa.spec_jacobian(phi))),
            Err(e) => Err(LearnerError::Approximation(e)),
        }
    }

    fn grad_log(&self, s: &S, a: R) -> (r: Result<Vec<Vec<R>>, LearnerError>) {
        let phi = self.fa.embed(s);
        match self.fa.evaluate(&phi) {
            Ok(value) => {
                let jacobian = self.fa.jacobian(&phi);
                Ok(mat_scale(a.minus(value), &jacobian))
            },
            Err(e) => Err(LearnerError::Approximation(e)),
        }
    }
}

impl<S, R: Scalar, F: Approximator<S, R> + Parameterised<R>> ParameterisedPolicy<
    S,
    R,
> for Dirac<F> {
    /// The approximator is adjusted by `a * error`, entry by entry, at the
    /// features of `s`.
    open spec fn spec_update(self, s: S, a: F::Output, error: R) -> Self {
        Dirac {
            fa: self.fa.spec_adjusted(
                self.fa.spec_embed(s),
                spec_scaled_entries(a.spec_entries(), error),
            ),
        }
    }

    /// The weights plus `errors` when the shapes agree, the policy as it
    /// was when they do not.
    open spec fn spec_update_raw(self, errors: Seq<Seq<R>>) -> Self {
        if same_shape(self.fa.spec_weights(), errors) {
            Dirac { fa: self.fa.spec_with_weights(spec_mat_sum(self.fa.spec_weights(), errors)) }
        } else {
            self
        }
    }

    fn update(&mut self, s: &S, a: F::Output, error: R) {
        let phi = self.fa.embed(s);
        let _ = self.fa.adjust(&phi, a.scaled(error));
    }

    fn update_raw(&mut self, errors: Vec<Vec<R>>) {
        let w = self.fa.weights();
        if shapes_agree(&w, &errors) {
            let moved = mat_sum(&w, &errors);
            self.fa.set_weights(moved);
        }
    }
}

} // verus!

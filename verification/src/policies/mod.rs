//! The interface between the algorithms and their policies, and the
//! policies that are defined by a value function alone.
use crate::algorithms::{Algorithm, LearnerError};
use crate::scalar::Scalar;
use crate::vector::rows;
use vstd::prelude::*;

pub mod dirac;
pub mod greedy;
pub mod random;

verus! {

/// A rule for choosing actions.
pub trait Policy<S, R: Scalar>: Algorithm {
    /// The kind of action the policy chooses.
    type Action;

    /// The probability of choosing `a` in `s`.
    spec fn spec_probability(&self, s: S, a: Self::Action) -> Result<R, LearnerError>;

    /// Whether a draw in `s` may return `result` and leave the policy as
    /// `after`. A policy with a source of randomness admits several
    /// outcomes; a deterministic one admits exactly one.
    spec fn spec_draws(
        self,
        s: S,
        after: Self,
        result: Result<Self::Action, LearnerError>,
    ) -> bool;

    /// Whether asking for a most probable action in `s` may return `result`
    /// and leave the policy as `after`.
    spec fn spec_picks(
        self,
        s: S,
        after: Self,
        result: Result<Self::Action, LearnerError>,
    ) -> bool;

    /// Draws an action for state `s`. Which action comes back is up to the
    /// policy's source of randomness.
    fn sample(&mut self, s: &S) -> (r: Result<Self::Action, LearnerError>)
        ensures
            old(self).spec_draws(*s, *final(self), r),
    ;

    /// Returns a most probable action in `s`. Where several actions are
    /// equally probable, which of them comes back is up to the policy.
    fn mpa(&mut self, s: &S) -> (r: Result<Self::Action, LearnerError>)
        ensures
            old(self).spec_picks(*s, *final(self), r),
    ;

    /// Returns the probability of choosing `a` in `s`.
    fn probability(&self, s: &S, a: Self::Action) -> (r: Result<R, LearnerError>)
        ensures
            r == self.spec_probability(*s, a),
    ;
}

/// A policy over the actions `0..n_actions`.
pub trait FinitePolicy<S, R: Scalar>: Policy<S, R, Action = usize> {
    /// The number of actions.
    spec fn spec_n_actions(&self) -> nat;

    /// The probability of every action in `s`.
    spec fn spec_probabilities(&self, s: S) -> Result<Seq<R>, LearnerError>;

    /// Returns the number of actions.
    fn n_actions(&self) -> (n: usize)
        ensures
            n == self.spec_n_actions(),
    ;

    /// Returns the probability of every action in `s`.
    fn probabilities(&self, s: &S) -> (r: Result<Vec<R>, LearnerError>)
        ensures
            match (r, self.spec_probabilities(*s)) {
                (Ok(ps), Ok(expected)) => ps@ == expected,
                (Err(e), Err(expected)) => e == expected,
                _ => false,
            },
    ;
}

/// A policy with a gradient of its log-probability.
pub trait DifferentiablePolicy<S, R: Scalar>: Policy<S, R> {
    /// The gradient of `log pi(a | s)` with respect to the policy's weights,
    /// in the shape of the weights.
    spec fn spec_grad_log(&self, s: S, a: Self::Action) -> Result<Seq<Seq<R>>, LearnerError>;

    /// Returns the gradient of `log pi(a | s)`.
    fn grad_log(&self, s: &S, a: Self::Action) -> (r: Result<Vec<Vec<R>>, LearnerError>)
        ensures
            match (r, self.spec_grad_log(*s, a)) {
                (Ok(g), Ok(expected)) => rows(g@) == expected,
                (Err(e), Err(expected)) => e == expected,
                _ => false,
            },
    ;
}

/// A policy whose weights can be moved. Updates are best effort: one that
/// the policy cannot apply leaves it as the successor function says, and is
/// not reported.
pub trait ParameterisedPolicy<S, R: Scalar>: Policy<S, R> {
    /// The policy after an update for action `a` in state `s` scaled by
    /// `error`.
    spec fn spec_update(self, s: S, a: Self::Action, error: R) -> Self;

    /// The policy after `errors` was added to its weights.
    spec fn spec_update_raw(self, errors: Seq<Seq<R>>) -> Self;

    /// Moves the policy towards (or away from) action `a` in state `s`, in
    /// proportion to `error`.
    fn update(&mut self, s: &S, a: Self::Action, error: R)
        ensures
            *final(self) == old(self).spec_update(*s, a, error),
    ;

    /// Adds a raw weight delta to the policy's weights.
    fn update_raw(&mut self, errors: Vec<Vec<R>>)
        ensures
            *final(self) == old(self).spec_update_raw(rows(errors@)),
    ;
}

} // verus!

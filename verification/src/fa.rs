//! The interface between the algorithms and their function approximators.
use crate::algorithms::{lift, spec_lift, LearnerError};
use crate::scalar::Scalar;
use vstd::prelude::*;

verus! {

/// Why an approximator rejected an evaluation or an update.
#[derive(Clone, Copy, Debug, PartialEq, Eq, Structural)]
pub enum ApproximationError {
    /// A feature vector, an index or an update has the wrong dimension.
    DimensionMismatch,
    /// The approximator holds no fitted state to evaluate.
    Unfitted,
    /// The approximator failed for a reason of its own.
    Failed,
}

/// Maps inputs to feature vectors.
pub trait Embedding<S, R: Scalar>: Sized {
    /// The number of features in the embedded representation.
    spec fn spec_n_features(&self) -> nat;

    /// The feature vector of `input`.
    spec fn spec_embed(&self, input: S) -> Seq<R>;

    /// Returns the number of features in the embedded representation.
    fn n_features(&self) -> (n: usize)
        ensures
            n == self.spec_n_features(),
    ;

    /// Embeds `input` as a feature vector.
    fn embed(&self, input: &S) -> (phi: Vec<R>)
        ensures
            phi@ == self.spec_embed(*input),
    ;
}

/// An approximator of a state-value function.
///
/// Evaluation reads the approximator and never changes it; an update is a
/// function of the approximator, the features and the error.
pub trait VFunction<S, R: Scalar>: Embedding<S, R> {
    /// The value at `phi`, or the reason there is none.
    spec fn spec_evaluate(&self, phi: Seq<R>) -> Result<R, ApproximationError>;

    /// The approximator after an update with `error` at `phi` was attempted.
    spec fn spec_update(self, phi: Seq<R>, error: R) -> Self;

    /// Whether an update with `error` at `phi` is accepted.
    spec fn spec_update_result(&self, phi: Seq<R>, error: R) -> Result<(), ApproximationError>;

    /// Evaluates the approximator at `phi`.
    fn evaluate(&self, phi: &Vec<R>) -> (r: Result<R, ApproximationError>)
        ensures
            r == self.spec_evaluate(phi@),
    ;

    /// Moves the estimate at `phi` by `error`.
    fn update(&mut self, phi: &Vec<R>, error: R) -> (r: Result<(), ApproximationError>)
        ensures
            *final(self) == old(self).spec_update(phi@, error),
            r == old(self).spec_update_result(phi@, error),
    ;
}

/// The value of state `s` under `v`.
pub open spec fn spec_state_value<S, R: Scalar, V: VFunction<S, R>>(v: &V, s: S) -> Result<
    R,
    ApproximationError,
> {
    v.spec_evaluate(v.spec_embed(s))
}

/// Evaluates `v` at the features of state `s`.
pub fn state_value<S, R: Scalar, V: VFunction<S, R>>(v: &V, s: &S) -> (r: Result<
    R,
    ApproximationError,
>)
    ensures
        r == spec_state_value(v, *s),
{
    let phi = v.embed(s);
    v.evaluate(&phi)
}

/// An approximator of an action-value function over finitely many actions.
pub trait QFunction<S, R: Scalar>: Embedding<S, R> {
    /// The number of actions.
    spec fn spec_n_actions(&self) -> nat;

    /// The values of all actions at `phi`, or the reason there are none.
    spec fn spec_evaluate(&self, phi: Seq<R>) -> Result<Seq<R>, ApproximationError>;

    /// The approximator after an update of `action` with `error` at `phi`
    /// was attempted.
    spec fn spec_update_index(self, phi: Seq<R>, action: usize, error: R) -> Self;

    /// Whether an update of `action` with `error` at `phi` is accepted.
    spec fn spec_update_index_result(&self, phi: Seq<R>, action: usize, error: R) -> Result<
        (),
        ApproximationError,
    >;

    /// Returns the number of actions.
    fn n_actions(&self) -> (n: usize)
        ensures
            n == self.spec_n_actions(),
    ;

    /// Evaluates every action at `phi`.
    fn evaluate(&self, phi: &Vec<R>) -> (r: Result<Vec<R>, ApproximationError>)
        ensures
            match (r, self.spec_evaluate(phi@)) {
                (Ok(values), Ok(expected)) => values@ == expected,
                (Err(e), Err(expected)) => e == expected,
                _ => false,
            },
    ;

    /// Moves the estimate of `action` at `phi` by `error`.
    fn update_index(&mut self, phi: &Vec<R>, action: usize, error: R) -> (r: Result<
        (),
        ApproximationError,
    >)
        ensures
            *final(self) == old(self).spec_update_index(phi@, action, error),
            r == old(self).spec_update_index_result(phi@, action, error),
    ;
}

/// The value of `action` at `phi`: the entry of the evaluation at that
/// index, a dimension mismatch when there is no such entry.
pub open spec fn spec_evaluate_index<S, R: Scalar, Q: QFunction<S, R>>(
    q: &Q,
    phi: Seq<R>,
    action: usize,
) -> Result<R, ApproximationError> {
    match q.spec_evaluate(phi) {
        Ok(values) => if action < values.len() {
            Ok(values[action as int])
        } else {
            Err(ApproximationError::DimensionMismatch)
        },
        Err(e) => Err(e),
    }
}

/// Evaluates a single action at `phi`.
pub fn evaluate_index<S, R: Scalar, Q: QFunction<S, R>>(q: &Q, phi: &Vec<R>, action: usize) -> (r:
    Result<R, ApproximationError>)
    ensures
        r == spec_evaluate_index(q, phi@, action),
{
    match q.evaluate(phi) {
        Ok(values) => if action < values.len() {
            Ok(values[action])
        } else {
            Err(ApproximationError::DimensionMismatch)
        },
        Err(e) => Err(e),
    }
}

/// The value of `action` in state `s` under `q`.
pub open spec fn spec_action_value<S, R: Scalar, Q: QFunction<S, R>>(q: &Q, s: S, action: usize) -> Result<
    R,
    LearnerError,
> {
    spec_lift(spec_evaluate_index(q, q.spec_embed(s), action))
}

/// Evaluates `action` in state `s`.
pub fn action_value<S, R: Scalar, Q: QFunction<S, R>>(q: &Q, s: &S, action: usize) -> (r: Result<
    R,
    LearnerError,
>)
    ensures
        r == spec_action_value(q, *s, action),
{
    let phi = q.embed(s);
    lift(evaluate_index(q, &phi, action))
}

/// An object parameterised by a matrix of weights.
pub trait Parameterised<R: Scalar>: Sized {
    /// The weights, row by row.
    spec fn spec_weights(&self) -> Seq<Seq<R>>;

    /// The shape of the weight matrix: rows, then columns.
    spec fn spec_weights_dim(&self) -> (nat, nat);

    /// Returns a copy of the weights.
    fn weights(&self) -> (w: Vec<Vec<R>>)
        ensures
            crate::vector::rows(w@) == self.spec_weights(),
    ;

    /// The object with `w` in place of its weights.
    spec fn spec_with_weights(self, w: Seq<Seq<R>>) -> Self;

    /// Returns the shape of the weight matrix.
    fn weights_dim(&self) -> (d: (usize, usize))
        ensures
            d.0 == self.spec_weights_dim().0,
            d.1 == self.spec_weights_dim().1,
    ;

    /// Replaces the weights by `w`.
    fn set_weights(&mut self, w: Vec<Vec<R>>)
        ensures
            *final(self) == old(self).spec_with_weights(crate::vector::rows(w@)),
    ;
}

/// A state-value approximator with a derivative in its weights.
pub trait Differentiable<S, R: Scalar>: VFunction<S, R> {
    /// The Jacobian of the value at `phi` with respect to the weights, in
    /// the shape of the weights.
    spec fn spec_jacobian(&self, phi: Seq<R>) -> Seq<Seq<R>>;

    /// Returns the Jacobian of the value at `phi`.
    fn jacobian(&self, phi: &Vec<R>) -> (j: Vec<Vec<R>>)
        ensures
            crate::vector::rows(j@) == self.spec_jacobian(phi@),
    ;
}

/// Whether two lists of entries have the same length and are numerically
/// equal entry by entry.
pub open spec fn spec_entries_agree<R: Scalar>(x: Seq<R>, y: Seq<R>) -> bool {
    &&& x.len() == y.len()
    &&& forall|i: int| 0 <= i < x.len() ==> (#[trigger] x[i]).spec_same(y[i])
}

/// Every entry of `x` multiplied by `c` from the right.
pub open spec fn spec_scaled_entries<R: Scalar>(x: Seq<R>, c: R) -> Seq<R> {
    Seq::new(x.len(), |i: int| x[i].spec_times(c))
}

/// A value that an approximator outputs: one scalar, a pair of scalars or
/// a vector of them.
pub trait Entries<R: Scalar>: Sized {
    /// The scalars that make up the value, in order.
    spec fn spec_entries(&self) -> Seq<R>;

    /// Returns whether `self` and `other` have as many entries and are
    /// numerically equal entry by entry.
    fn agrees(&self, other: &Self) -> (b: bool)
        ensures
            b == spec_entries_agree(self.spec_entries(), other.spec_entries()),
    ;

    /// Returns the value with every entry multiplied by `c`.
    fn scaled(&self, c: R) -> (out: Self)
        ensures
            out.spec_entries() == spec_scaled_entries(self.spec_entries(), c),
    ;
}

impl<R: Scalar> Entries<R> for R {
    open spec fn spec_entries(&self) -> Seq<R> {
        seq![*self]
    }

    fn agrees(&self, other: &Self) -> (b: bool) {
        let b = self.same(*other);
        proof {
            assert(seq![*self][0] == *self);
        }
        b
    }

    fn scaled(&self, c: R) -> (out: Self) {
        self.times(c)
    }
}

impl<R: Scalar> Entries<R> for [R; 2] {
    open spec fn spec_entries(&self) -> Seq<R> {
        self@
    }

    fn agrees(&self, other: &Self) -> (b: bool) {
        let b = self[0].same(other[0]) && self[1].same(other[1]);
        proof {
            if b {
                assert forall|i: int| 0 <= i < self@.len() implies (#[trigger] self@[i]).spec_same(
                    other@[i],
                ) by {}
            }
        }
        b
    }

    fn scaled(&self, c: R) -> (out: Self) {
        [self[0].times(c), self[1].times(c)]
    }
}

impl<R: Scalar> Entries<R> for Vec<R> {
    open spec fn spec_entries(&self) -> Seq<R> {
        self@
    }

    fn agrees(&self, other: &Self) -> (b: bool) {
        if self.len() != other.len() {
            return false;
        }
        let mut i: usize = 0;
        while i < self.len()
            invariant
                self@.len() == other@.len(),
                i <= self@.len(),
                forall|k: int| 0 <= k < i ==> (#[trigger] self@[k]).spec_same(other@[k]),
            decreases self@.len() - i,
        {
            if !self[i].same(other[i]) {
                return false;
            }
            i = i + 1;
        }
        true
    }

    fn scaled(&self, c: R) -> (out: Self) {
        let mut out: Vec<R> = Vec::new();
        let mut i: usize = 0;
        while i < self.len()
            invariant
                i <= self@.len(),
                out@.len() == i,
                forall|k: int| 0 <= k < i ==> out@[k] == self@[k].spec_times(c),
            decreases self@.len() - i,
        {
            out.push(self[i].times(c));
            i = i + 1;
        }
        out
    }
}

/// An approximator with outputs of any of these shapes.
///
/// Evaluation reads the approximator and never changes it; an adjustment is
/// a function of the approximator, the features and the entries it is
/// adjusted by.
pub trait Approximator<S, R: Scalar>: Embedding<S, R> {
    /// The shape of an output.
    type Output: Entries<R>;

    /// The entries of the output at `phi`, or the reason there is none.
    spec fn spec_output(&self, phi: Seq<R>) -> Result<Seq<R>, ApproximationError>;

    /// The approximator after an adjustment by `by` at `phi` was attempted.
    spec fn spec_adjusted(self, phi: Seq<R>, by: Seq<R>) -> Self;

    /// Evaluates the approximator at `phi`.
    fn output(&self, phi: &Vec<R>) -> (r: Result<Self::Output, ApproximationError>)
        ensures
            match (r, self.spec_output(phi@)) {
                (Ok(value), Ok(expected)) => value.spec_entries() == expected,
                (Err(e), Err(expected)) => e == expected,
                _ => false,
            },
    ;

    /// Moves the output at `phi` by `by`, entry by entry.
    fn adjust(&mut self, phi: &Vec<R>, by: Self::Output) -> (r: Result<(), ApproximationError>)
        ensures
            *final(self) == old(self).spec_adjusted(phi@, by.spec_entries()),
    ;
}

/// A state-value function is an approximator with one scalar as output.
impl<S, R: Scalar, V: VFunction<S, R>> Approximator<S, R> for V {
    type Output = R;

    open spec fn spec_output(&self, phi: Seq<R>) -> Result<Seq<R>, ApproximationError> {
        match self.spec_evaluate(phi) {
            Ok(value) => Ok(seq![value]),
            Err(e) => Err(e),
        }
    }

    open spec fn spec_adjusted(self, phi: Seq<R>, by: Seq<R>) -> Self {
        self.spec_update(phi, by[0])
    }

    fn output(&self, phi: &Vec<R>) -> (r: Result<R, ApproximationError>) {
        self.evaluate(phi)
    }

    fn adjust(&mut self, phi: &Vec<R>, by: R) -> (r: Result<(), ApproximationError>) {
        self.update(phi, by)
    }
}

} // verus!

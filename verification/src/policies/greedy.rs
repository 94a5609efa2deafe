//! The greedy policy over an action-value function.
//!
//! The policy holds no state of its own: it is a view of the value function
//! it is asked about, so whoever owns the value function is its only writer
//! and every read sees the weights of the latest write.
use crate::algorithms::{Algorithm, LearnerError};
use crate::fa::{action_value, spec_action_value, ApproximationError, QFunction};
use crate::policies::{FinitePolicy, Policy};
use crate::scalar::Scalar;
use crate::utils::{argmaxima, lemma_argmaxima_indices, spec_argmaxima};
use crate::vector::zeros;
use vstd::prelude::*;

verus! {

/// The first index that attains the maximum of `values`.
pub open spec fn spec_greedy_of<R: Scalar>(values: Seq<R>) -> Result<usize, LearnerError> {
    let maxima = spec_argmaxima(values).1;
    if maxima.len() == 0 {
        Err(LearnerError::NoAction)
    } else {
        Ok(maxima[0])
    }
}

/// The action that maximises `q` in state `s`.
pub open spec fn spec_greedy_action<S, R: Scalar, Q: QFunction<S, R>>(q: &Q, s: S) -> Result<
    usize,
    LearnerError,
> {
    match q.spec_evaluate(q.spec_embed(s)) {
        Ok(values) => spec_greedy_of(values),
        Err(e) => Err(LearnerError::Approximation(e)),
    }
}

/// The probability `1 / m` on each of the `m` maxima of `values`, and zero
/// elsewhere.
pub open spec fn spec_greedy_distribution<R: Scalar>(values: Seq<R>) -> Seq<R> {
    let maxima = spec_argmaxima(values).1;
    Seq::new(
        values.len(),
        |i: int|
            if maxima.contains(i as usize) {
                R::spec_one().spec_over(R::spec_from_count(maxima.len() as usize))
            } else {
                R::spec_zero()
            },
    )
}

/// The probability of every action under the greedy policy of `q` in `s`.
pub open spec fn spec_greedy_probabilities<S, R: Scalar, Q: QFunction<S, R>>(q: &Q, s: S) -> Result<
    Seq<R>,
    LearnerError,
> {
    match q.spec_evaluate(q.spec_embed(s)) {
        Ok(values) => Ok(spec_greedy_distribution(values)),
        Err(e) => Err(LearnerError::Approximation(e)),
    }
}

/// The greedy choice is one of the positions of `values`.
pub proof fn lemma_greedy_in_range<R: Scalar>(values: Seq<R>)
    requires
        values.len() <= usize::MAX,
    ensures
        spec_greedy_of(values) matches Ok(a) ==> a < values.len(),
        spec_greedy_of(values) is Ok || spec_greedy_of(values) == Err::<usize, LearnerError>(
            LearnerError::NoAction,
        ),
{
    lemma_argmaxima_indices(values, values.len());
}

/// Picks the first index that attains the maximum of `values`.
pub fn greedy_of<R: Scalar>(values: &Vec<R>) -> (r: Result<usize, LearnerError>)
    ensures
        r == spec_greedy_of(values@),
        r matches Ok(a) ==> a < values@.len(),
{
    let n = values.len();
    let (_, maxima) = argmaxima(values.as_slice());
    proof {
        lemma_greedy_in_range(values@);
    }
    if maxima.len() == 0 {
        Err(LearnerError::NoAction)
    } else {
        Ok(maxima[0])
    }
}

/// Returns the action that maximises `q` in state `s`.
pub fn greedy_action<S, R: Scalar, Q: QFunction<S, R>>(q: &Q, s: &S) -> (r: Result<
    usize,
    LearnerError,
>)
    ensures
        r == spec_greedy_action(q, *s),
{
    let phi = q.embed(s);
    match q.evaluate(&phi) {
        Ok(values) => greedy_of(&values),
        Err(e) => Err(LearnerError::Approximation(e)),
    }
}

/// Spreads probability one evenly over the maxima of `values`.
pub fn greedy_distribution<R: Scalar>(values: &Vec<R>) -> (ps: Vec<R>)
    ensures
        ps@ == spec_greedy_distribution(values@),
{
    let n = values.len();
    let (_, maxima) = argmaxima(values.as_slice());
    let p = R::one().over(R::from_count(maxima.len()));
    let mut ps: Vec<R> = zeros(n);
    proof {
        lemma_argmaxima_indices(values@, values@.len());
    }
    let mut k: usize = 0;
    while k < maxima.len()
        invariant
            k <= maxima@.len(),
            n == values@.len(),
            maxima@ == spec_argmaxima(values@).1,
            ps@.len() == n,
            forall|j: int| 0 <= j < maxima@.len() ==> (#[trigger] maxima@[j]) < n,
            forall|i: int|
                0 <= i < n ==> (#[trigger] ps@[i]) == if maxima@.take(k as int).contains(
                    i as usize,
                ) {
                    p
                } else {
                    R::spec_zero()
                },
        decreases maxima@.len() - k,
    {
        let ix = maxima[k];
        ps.set(ix, p);
        proof {
            let before = maxima@.take(k as int);
            let after = maxima@.take(k + 1);
            assert forall|i: int| 0 <= i < n implies (#[trigger] ps@[i]) == if after.contains(
                i as usize,
            ) {
                p
            } else {
                R::spec_zero()
            } by {
                let iu = i as usize;
                if i == ix {
                    assert(after[k as int] == iu);
                } else if before.contains(iu) {
                    let w = choose|w: int| 0 <= w < before.len() && before[w] == iu;
                    assert(after[w] == iu);
                } else if after.contains(iu) {
                    let w = choose|w: int| 0 <= w < after.len() && after[w] == iu;
                    assert(before[w] == iu);
                }
            }
        }
        k = k + 1;
    }
    proof {
        assert(maxima@.take(maxima@.len() as int) == maxima@);
    }
    ps
}

/// Returns the probability of every action under the greedy policy of `q`
/// in state `s`.
pub fn greedy_probabilities<S, R: Scalar, Q: QFunction<S, R>>(q: &Q, s: &S) -> (r: Result<
    Vec<R>,
    LearnerError,
>)
    ensures
        match (r, spec_greedy_probabilities(q, *s)) {
            (Ok(ps), Ok(expected)) => ps@ == expected,
            (Err(e), Err(expected)) => e == expected,
            _ => false,
        },
{
    let phi = q.embed(s);
    match q.evaluate(&phi) {
        Ok(values) => Ok(greedy_distribution(&values)),
        Err(e) => Err(LearnerError::Approximation(e)),
    }
}

/// The value in state `s` of the action that is greedy in `q`.
pub open spec fn spec_greedy_value<S, R: Scalar, Q: QFunction<S, R>>(q: &Q, s: S) -> Result<
    R,
    LearnerError,
> {
    match spec_greedy_action(q, s) {
        Ok(a) => spec_action_value(q, s, a),
        Err(e) => Err(e),
    }
}

/// Evaluates the greedy action in state `s`.
pub fn greedy_value<S, R: Scalar, Q: QFunction<S, R>>(q: &Q, s: &S) -> (r: Result<R, LearnerError>)
    ensures
        r == spec_greedy_value(q, *s),
{
    match greedy_action(q, s) {
        Ok(a) => action_value(q, s, a),
        Err(e) => Err(e),
    }
}

/// The greedy policy as a view of a value function that someone else owns.
///
/// Any number of views can be taken of one value function, and each sees
/// the weights of its latest update; none of them can change it.
pub struct Greedy<'a, Q> {
    pub q_func: &'a Q,
}

impl<'a, Q> Greedy<'a, Q> {
    /// The greedy policy of `q_func`.
    pub fn new(q_func: &'a Q) -> (pi: Self)
        ensures
            pi.q_func == q_func,
    {
        Greedy { q_func }
    }
}

impl<'a, Q> Algorithm for Greedy<'a, Q> {
    /// A view has nothing to anneal.
    open spec fn spec_ends_episode(self, after: Self) -> bool {
        after == self
    }

    fn handle_terminal(&mut self) {
    }
}

/// The probability of `action` among the probabilities `ps` of all
/// actions, a dimension mismatch when there is no such action.
pub open spec fn spec_probability_of<R: Scalar>(
    ps: Result<Seq<R>, LearnerError>,
    action: usize,
) -> Result<R, LearnerError> {
    match ps {
        Ok(ps) => if action < ps.len() {
            Ok(ps[action as int])
        } else {
            Err(LearnerError::Approximation(ApproximationError::DimensionMismatch))
        },
        Err(e) => Err(e),
    }
}

impl<'a, S, R: Scalar, Q: QFunction<S, R>> Policy<S, R> for Greedy<'a, Q> {
    type Action = usize;

    open spec fn spec_probability(&self, s: S, a: usize) -> Result<R, LearnerError> {
        spec_probability_of(spec_greedy_probabilities(self.q_func, s), a)
    }

    /// The greedy policy always plays the greedy action, and asking it
    /// changes nothing.
    open spec fn spec_draws(self, s: S, after: Self, result: Result<usize, LearnerError>) -> bool {
        result == spec_greedy_action(self.q_func, s) && after == self
    }

    /// The greedy action is the most probable one.
    open spec fn spec_picks(self, s: S, after: Self, result: Result<usize, LearnerError>) -> bool {
        result == spec_greedy_action(self.q_func, s) && after == self
    }

    fn sample(&mut self, s: &S) -> (r: Result<usize, LearnerError>) {
        greedy_action(self.q_func, s)
    }

    fn mpa(&mut self, s: &S) -> (r: Result<usize, LearnerError>) {
        greedy_action(self.q_func, s)
    }

    fn probability(&self, s: &S, a: usize) -> (r: Result<R, LearnerError>) {
        match greedy_probabilities(self.q_func, s) {
            Ok(ps) => if a < ps.len() {
                Ok(ps[a])
            } else {
                Err(LearnerError::Approximation(ApproximationError::DimensionMismatch))
            },
            Err(e) => Err(e),
        }
    }
}

impl<'a, S, R: Scalar, Q: QFunction<S, R>> FinitePolicy<S, R> for Greedy<'a, Q> {
    open spec fn spec_n_actions(&self) -> nat {
        self.q_func.spec_n_actions()
    }

    open spec fn spec_probabilities(&self, s: S) -> Result<Seq<R>, LearnerError> {
        spec_greedy_probabilities(self.q_func, s)
    }

    fn n_actions(&self) -> (n: usize) {
        self.q_func.n_actions()
    }

    fn probabilities(&self, s: &S) -> (r: Result<Vec<R>, LearnerError>) {
        greedy_probabilities(self.q_func, s)
    }
}

} // verus!

//! The contracts every learning algorithm implements.
use crate::domains::Transition;
use crate::fa::ApproximationError;
use crate::scalar::Scalar;
use vstd::prelude::*;

verus! {

/// Why an algorithm could not predict, act or learn.
#[derive(Clone, Copy, Debug, PartialEq, Eq, Structural)]
pub enum LearnerError {
    /// An approximator failed on a prediction that the step depends on.
    Approximation(ApproximationError),
    /// The algorithm does not offer the requested prediction.
    UnsupportedCapability,
    /// There is no action to choose from.
    NoAction,
}

/// End-of-episode housekeeping.
pub trait Algorithm: Sized {
    /// Whether `handle_terminal` may leave the algorithm as `after`.
    spec fn spec_ends_episode(self, after: Self) -> bool;

    /// Performs housekeeping after the terminal observation of an episode:
    /// advances every owned parameter by one schedule tick, clears every
    /// owned trace and forwards the call to every owned sub-algorithm.
    fn handle_terminal(&mut self)
        ensures
            old(self).spec_ends_episode(*final(self)),
    ;
}

/// The failure that a result reports, if any.
pub open spec fn spec_failure(r: Result<(), LearnerError>) -> Option<LearnerError> {
    match r {
        Ok(_) => None,
        Err(e) => Some(e),
    }
}

/// Learning from one transition at a time.
pub trait OnlineLearner<S, A, R: Scalar>: Algorithm {
    /// Whether handling `t` may leave the learner as `after`, reporting
    /// `failure`. A failure is reported exactly when a prediction or a draw
    /// that the step depends on failed.
    spec fn spec_handles(
        self,
        t: Transition<S, A, R>,
        after: Self,
        failure: Option<LearnerError>,
    ) -> bool;

    /// Handles a single transition collected from the environment.
    fn handle_transition(&mut self, t: &Transition<S, A, R>) -> (r: Result<(), LearnerError>)
        ensures
            old(self).spec_handles(*t, *final(self), spec_failure(r)),
    ;
}

/// Whether handling the first `n` transitions of `ts` in order, stopping at
/// the first one that fails, may leave `start` as `after`, reporting
/// `failure`.
pub open spec fn spec_handles_prefix<S, A, R: Scalar, L: OnlineLearner<S, A, R>>(
    start: L,
    ts: Seq<Transition<S, A, R>>,
    n: nat,
    after: L,
    failure: Option<LearnerError>,
) -> bool
    decreases n,
{
    if n == 0 {
        after == start && failure is None
    } else {
        (failure is Some && spec_handles_prefix(start, ts, (n - 1) as nat, after, failure)) || (
        exists|mid: L|
            spec_handles_prefix(start, ts, (n - 1) as nat, mid, None) && #[trigger] mid.spec_handles(
                ts[n - 1],
                after,
                failure,
            ))
    }
}

/// Handles a sequence of transitions: the ordered fold of
/// `handle_transition`, which ends at the first failure.
pub fn handle_sequence<S, A, R: Scalar, L: OnlineLearner<S, A, R>>(
    learner: &mut L,
    sequence: &[Transition<S, A, R>],
) -> (r: Result<(), LearnerError>)
    ensures
        spec_handles_prefix(
            *old(learner),
            sequence@,
            sequence@.len(),
            *final(learner),
            spec_failure(r),
        ),
{
    let mut last: Result<(), LearnerError> = Ok(());
    let mut i: usize = 0;
    while i < sequence.len()
        invariant
            i <= sequence@.len(),
            last is Ok,
            spec_handles_prefix(*old(learner), sequence@, i as nat, *learner, None),
        decreases sequence@.len() - i,
    {
        let ghost mid = *learner;
        last = learner.handle_transition(&sequence[i]);
        proof {
            lemma_prefix_extends(
                *old(learner),
                sequence@,
                (i + 1) as nat,
                mid,
                *learner,
                spec_failure(last),
            );
        }
        i = i + 1;
        if last.is_err() {
            proof {
                lemma_prefix_failure_is_final(
                    *old(learner),
                    sequence@,
                    i as nat,
                    sequence@.len(),
                    *learner,
                    spec_failure(last),
                );
            }
            return last;
        }
    }
    last
}

/// A prefix that passed, followed by one more step, is the next prefix.
pub proof fn lemma_prefix_extends<S, A, R: Scalar, L: OnlineLearner<S, A, R>>(
    start: L,
    ts: Seq<Transition<S, A, R>>,
    n: nat,
    mid: L,
    after: L,
    failure: Option<LearnerError>,
)
    requires
        0 < n <= ts.len(),
        spec_handles_prefix(start, ts, (n - 1) as nat, mid, None),
        mid.spec_handles(ts[n - 1], after, failure),
    ensures
        spec_handles_prefix(start, ts, n, after, failure),
{
}

/// Once a prefix has failed, the longer prefixes end in the same learner
/// with the same failure.
pub proof fn lemma_prefix_failure_is_final<S, A, R: Scalar, L: OnlineLearner<S, A, R>>(
    start: L,
    ts: Seq<Transition<S, A, R>>,
    n: nat,
    m: nat,
    after: L,
    failure: Option<LearnerError>,
)
    requires
        n <= m,
        failure is Some,
        spec_handles_prefix(start, ts, n, after, failure),
    ensures
        spec_handles_prefix(start, ts, m, after, failure),
    decreases m,
{
    if n < m {
        lemma_prefix_failure_is_final(start, ts, n, (m - 1) as nat, after, failure);
    }
}

/// Learning from a whole episode at once.
pub trait BatchLearner<S, A, R: Scalar>: Algorithm {
    /// Whether handling `batch` may leave the learner as `after`, reporting
    /// `failure`.
    spec fn spec_handles_batch(
        self,
        batch: Seq<Transition<S, A, R>>,
        after: Self,
        failure: Option<LearnerError>,
    ) -> bool;

    /// Handles the transitions of one episode, ordered oldest to newest.
    fn handle_batch(&mut self, batch: &[Transition<S, A, R>]) -> (r: Result<(), LearnerError>)
        ensures
            old(self).spec_handles_batch(batch@, *final(self), spec_failure(r)),
    ;
}

/// Action selection: the target policy is the one being evaluated and
/// improved, the behaviour policy the one that acts in the environment.
pub trait Controller<S, A> {
    /// Samples the target policy for state `s`.
    fn sample_target(&mut self, s: &S) -> Result<A, LearnerError>;

    /// Samples the behaviour policy for state `s`.
    fn sample_behaviour(&mut self, s: &S) -> Result<A, LearnerError>;
}

/// State-value queries. A query reads the predictor and never changes it,
/// so two queries with no update between them give the same answer.
pub trait ValuePredictor<S, R: Scalar> {
    /// The estimated value of `s`.
    spec fn spec_predict_v(&self, s: S) -> Result<R, LearnerError>;

    /// Computes the estimated value of V(s).
    fn predict_v(&self, s: &S) -> (r: Result<R, LearnerError>)
        ensures
            r == self.spec_predict_v(*s),
    ;
}

/// Action-value queries.
///
/// A predictor without action values of its own answers `predict_qsa` with
/// `predict_v` and `predict_qs` with `UnsupportedCapability`.
pub trait ActionValuePredictor<S, A, R: Scalar>: ValuePredictor<S, R> {
    /// The estimated value of taking `a` in `s`.
    spec fn spec_predict_qsa(&self, s: S, a: A) -> Result<R, LearnerError>;

    /// The estimated values of all actions in `s`.
    spec fn spec_predict_qs(&self, s: S) -> Result<Seq<R>, LearnerError>;

    /// Computes the estimated value of Q(s, a).
    fn predict_qsa(&self, s: &S, a: A) -> (r: Result<R, LearnerError>)
        ensures
            r == self.spec_predict_qsa(*s, a),
    ;

    /// Computes the estimated value of Q(s, ·).
    fn predict_qs(&self, s: &S) -> (r: Result<Vec<R>, LearnerError>)
        ensures
            match (r, self.spec_predict_qs(*s)) {
                (Ok(values), Ok(expected)) => values@ == expected,
                (Err(e), Err(expected)) => e == expected,
                _ => false,
            },
    ;
}

/// Lifts an approximator's answer into a learner's answer.
pub open spec fn spec_lift<T>(r: Result<T, ApproximationError>) -> Result<T, LearnerError> {
    match r {
        Ok(v) => Ok(v),
        Err(e) => Err(LearnerError::Approximation(e)),
    }
}

/// Lifts an approximator's answer into a learner's answer.
pub fn lift<T>(r: Result<T, ApproximationError>) -> (out: Result<T, LearnerError>)
    ensures
        out == spec_lift(r),
{
    match r {
        Ok(v) => Ok(v),
        Err(e) => Err(LearnerError::Approximation(e)),
    }
}

/// The temporal-difference error of a step with reward `reward` from a
/// state valued `value`. A terminal step has no successor value and gives
/// `reward - value`, with no bootstrapped term and no discount; any other
/// step gives `reward + gamma * next - value`.
pub open spec fn spec_td_error<R: Scalar>(reward: R, gamma: R, value: R, next: Option<R>) -> R {
    match next {
        None => reward.spec_minus(value),
        Some(next_value) => reward.spec_plus(gamma.spec_times(next_value)).spec_minus(value),
    }
}

/// Computes the temporal-difference error of one step; `next` is the value
/// of the successor, absent when the step is terminal.
pub fn td_error<R: Scalar>(reward: R, gamma: R, value: R, next: Option<R>) -> (error: R)
    ensures
        error == spec_td_error(reward, gamma, value, next),
        next is None ==> error == reward.spec_minus(value),
{
    match next {
        None => reward.minus(value),
        Some(next_value) => reward.plus(gamma.times(next_value)).minus(value),
    }
}

} // verus!

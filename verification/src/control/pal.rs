//! Persistent advantage learning.
use crate::algorithms::{
    spec_lift, ActionValuePredictor, Algorithm, Controller, LearnerError,
    OnlineLearner, ValuePredictor,
};
use crate::domains::Transition;
use crate::fa::{action_value, spec_action_value, ApproximationError, Parameterised, QFunction};
use crate::parameter::Parameter;
use crate::policies::greedy::{
    greedy_action, greedy_of, greedy_value, spec_greedy_action, spec_greedy_of, spec_greedy_value,
};
use crate::policies::Policy;
use crate::scalar::{larger, spec_larger, Scalar};
use vstd::prelude::*;

verus! {

/// Q-learning with the persistent advantage-learning operator, which widens
/// the gap between the greedy action and the others.
pub struct PAL<Q, P, R> {
    pub q_func: Q,
    pub policy: P,
    pub alpha: Parameter<R>,
    pub gamma: Parameter<R>,
}

/// The persistent advantage-learning error of taking `a` where the action
/// values are `qs`, with reward `reward`, arriving where they are `nqs`.
///
/// With `a*` greedy in `qs` and `a'*` greedy in `nqs`:
/// `td = reward + gamma * nqs[a'*] - qs[a]`,
/// `al = td - alpha * (qs[a*] - qs[a])`, and the error is the larger of `al`
/// and `td - alpha * (nqs[a'*] - nqs[a])`.
pub open spec fn spec_persistent_error<R: Scalar>(
    alpha: R,
    gamma: R,
    reward: R,
    qs: Seq<R>,
    nqs: Seq<R>,
    a: int,
    a_star: int,
    na_star: int,
) -> R {
    let td = reward.spec_plus(gamma.spec_times(nqs[na_star])).spec_minus(qs[a]);
    let al = td.spec_minus(alpha.spec_times(qs[a_star].spec_minus(qs[a])));
    spec_larger(al, td.spec_minus(alpha.spec_times(nqs[na_star].spec_minus(nqs[a]))))
}

/// The residual of a step from action values `qs`, given the action values
/// `nqs` of the state reached unless the step is terminal.
///
/// A terminal step gives `reward - qs[a]`. The residual fails with a
/// dimension mismatch when `a` has no value, and with `NoAction` when a
/// greedy action is needed and there is none.
pub open spec fn spec_pal_residual<R: Scalar>(
    alpha: R,
    gamma: R,
    reward: R,
    qs: Seq<R>,
    next: Option<Seq<R>>,
    a: usize,
) -> Result<R, LearnerError> {
    if a >= qs.len() {
        Err(LearnerError::Approximation(ApproximationError::DimensionMismatch))
    } else {
        match next {
            None => Ok(reward.spec_minus(qs[a as int])),
            Some(nqs) => if a >= nqs.len() {
                Err(LearnerError::Approximation(ApproximationError::DimensionMismatch))
            } else {
                match (spec_greedy_of(qs), spec_greedy_of(nqs)) {
                    (Ok(a_star), Ok(na_star)) => Ok(
                        spec_persistent_error(
                            alpha,
                            gamma,
                            reward,
                            qs,
                            nqs,
                            a as int,
                            a_star as int,
                            na_star as int,
                        ),
                    ),
                    (Err(e), _) => Err(e),
                    (_, Err(e)) => Err(e),
                }
            },
        }
    }
}

/// Computes the residual of a step from the action values at its two ends.
pub fn pal_residual<R: Scalar>(
    alpha: R,
    gamma: R,
    reward: R,
    qs: &Vec<R>,
    next: Option<&Vec<R>>,
    a: usize,
) -> (r: Result<R, LearnerError>)
    ensures
        r == spec_pal_residual(
            alpha,
            gamma,
            reward,
            qs@,
            match next {
                Some(nqs) => Some(nqs@),
                None => None,
            },
            a,
        ),
{
    if a >= qs.len() {
        return Err(LearnerError::Approximation(ApproximationError::DimensionMismatch));
    }
    match next {
        None => Ok(reward.minus(qs[a])),
        Some(nqs) => {
            if a >= nqs.len() {
                return Err(LearnerError::Approximation(ApproximationError::DimensionMismatch));
            }
            let a_star = match greedy_of(qs) {
                Ok(i) => i,
                Err(e) => { return Err(e); },
            };
            let na_star = match greedy_of(nqs) {
                Ok(i) => i,
                Err(e) => { return Err(e); },
            };
            let td = reward.plus(gamma.times(nqs[na_star])).minus(qs[a]);
            let al = td.minus(alpha.times(qs[a_star].minus(qs[a])));
            Ok(larger(al, td.minus(alpha.times(nqs[na_star].minus(nqs[a])))))
        },
    }
}

impl<Q, P, R> PAL<Q, P, R> {
    /// A learner of `q_func` that explores with `policy`, with step size
    /// `alpha` and discount `gamma`.
    pub fn new(q_func: Q, policy: P, alpha: Parameter<R>, gamma: Parameter<R>) -> (agent: Self)
        ensures
            agent == (PAL { q_func, policy, alpha, gamma }),
    {
        PAL { q_func, policy, alpha, gamma }
    }
}

impl<Q, P, R: Scalar> PAL<Q, P, R> {
    /// The residual of `t`, from the action values that the value function
    /// gives at the state left and, unless `t` is terminal, at the state
    /// reached. It fails when one of the evaluations does.
    pub open spec fn spec_residual<S>(&self, t: Transition<S, usize, R>) -> Result<
        R,
        LearnerError,
    > where Q: QFunction<S, R> {
        match self.q_func.spec_evaluate(self.q_func.spec_embed(t.from.spec_state())) {
            Err(e) => Err(LearnerError::Approximation(e)),
            Ok(qs) => if t.spec_terminated() {
                spec_pal_residual(self.alpha.value, self.gamma.value, t.reward, qs, None, t.action)
            } else {
                match self.q_func.spec_evaluate(self.q_func.spec_embed(t.to.spec_state())) {
                    Err(e) => Err(LearnerError::Approximation(e)),
                    Ok(nqs) => spec_pal_residual(
                        self.alpha.value,
                        self.gamma.value,
                        t.reward,
                        qs,
                        Some(nqs),
                        t.action,
                    ),
                }
            },
        }
    }

    /// The learner after handling `t`: when the residual can be computed,
    /// the value function receives the update `alpha * residual` for the
    /// action taken, at the features of the state left; otherwise nothing
    /// changes and the failure is reported.
    pub open spec fn spec_handle_transition<S>(self, t: Transition<S, usize, R>) -> (
        Self,
        Option<LearnerError>,
    ) where Q: QFunction<S, R> {
        match self.spec_residual(t) {
            Err(e) => (self, Some(e)),
            Ok(residual) => (
                PAL {
                    q_func: self.q_func.spec_update_index(
                        self.q_func.spec_embed(t.from.spec_state()),
                        t.action,
                        self.alpha.value.spec_times(residual),
                    ),
                    policy: self.policy,
                    alpha: self.alpha,
                    gamma: self.gamma,
                },
                None,
            ),
        }
    }

    /// Computes the residual of `t`.
    pub fn residual<S>(&self, t: &Transition<S, usize, R>) -> (r: Result<R, LearnerError>) where
        Q: QFunction<S, R>,

        ensures
            r == self.spec_residual(*t),
    {
        let phi_s = self.q_func.embed(t.from.state());
        let qs = match self.q_func.evaluate(&phi_s) {
            Ok(v) => v,
            Err(e) => { return Err(LearnerError::Approximation(e)); },
        };
        if t.terminated() {
            pal_residual(self.alpha.value(), self.gamma.value(), t.reward, &qs, None, t.action)
        } else {
            let phi_ns = self.q_func.embed(t.to.state());
            let nqs = match self.q_func.evaluate(&phi_ns) {
                Ok(v) => v,
                Err(e) => { return Err(LearnerError::Approximation(e)); },
            };
            pal_residual(
                self.alpha.value(),
                self.gamma.value(),
                t.reward,
                &qs,
                Some(&nqs),
                t.action,
            )
        }
    }
}

impl<Q, P: Algorithm, R: Scalar> Algorithm for PAL<Q, P, R> {
    /// Both parameters advance by exactly one schedule tick and the
    /// behaviour policy does its own housekeeping; the value function is
    /// untouched.
    open spec fn spec_ends_episode(self, after: Self) -> bool {
        &&& after.q_func == self.q_func
        &&& self.policy.spec_ends_episode(after.policy)
        &&& after.alpha == self.alpha.spec_step()
        &&& after.gamma == self.gamma.spec_step()
    }

    fn handle_terminal(&mut self) {
        self.alpha = self.alpha.step();
        self.gamma = self.gamma.step();
        self.policy.handle_terminal();
    }
}

impl<S, Q: QFunction<S, R>, P: Policy<S, R, Action = usize>, R: Scalar> OnlineLearner<
    S,
    usize,
    R,
> for PAL<Q, P, R> {
    /// The step is a function of the learner and the transition.
    open spec fn spec_handles(
        self,
        t: Transition<S, usize, R>,
        after: Self,
        failure: Option<LearnerError>,
    ) -> bool {
        (after, failure) == self.spec_handle_transition(t)
    }

    fn handle_transition(&mut self, t: &Transition<S, usize, R>) -> (r: Result<(), LearnerError>) {
        let residual = match self.residual(t) {
            Ok(v) => v,
            Err(e) => { return Err(e); },
        };
        let phi = self.q_func.embed(t.from.state());
        let _ = self.q_func.update_index(&phi, t.action, self.alpha.times(residual));
        Ok(())
    }
}

impl<S, Q: QFunction<S, R>, P: Policy<S, R, Action = usize>, R: Scalar> Controller<
    S,
    usize,
> for PAL<Q, P, R> {
    /// The target policy is greedy in the value function as it stands, and
    /// asking it changes nothing.
    fn sample_target(&mut self, s: &S) -> (r: Result<usize, LearnerError>)
        ensures
            r == spec_greedy_action(&old(self).q_func, *s),
            *final(self) == *old(self),
    {
        greedy_action(&self.q_func, s)
    }

    /// The behaviour policy draws the action; the value function and the
    /// parameters are not touched.
    fn sample_behaviour(&mut self, s: &S) -> (r: Result<usize, LearnerError>)
        ensures
            old(self).policy.spec_draws(*s, final(self).policy, r),
            final(self).q_func == old(self).q_func,
            final(self).alpha == old(self).alpha,
            final(self).gamma == old(self).gamma,
    {
        self.policy.sample(s)
    }
}

impl<S, Q: QFunction<S, R>, P, R: Scalar> ValuePredictor<S, R> for PAL<Q, P, R> {
    /// The value of a state is the value of its greedy action.
    open spec fn spec_predict_v(&self, s: S) -> Result<R, LearnerError> {
        spec_greedy_value(&self.q_func, s)
    }

    fn predict_v(&self, s: &S) -> (r: Result<R, LearnerError>) {
        greedy_value(&self.q_func, s)
    }
}

impl<S, Q: QFunction<S, R>, P, R: Scalar> ActionValuePredictor<S, usize, R> for PAL<Q, P, R> {
    open spec fn spec_predict_qsa(&self, s: S, a: usize) -> Result<R, LearnerError> {
        spec_action_value(&self.q_func, s, a)
    }

    open spec fn spec_predict_qs(&self, s: S) -> Result<Seq<R>, LearnerError> {
        spec_lift(self.q_func.spec_evaluate(self.q_func.spec_embed(s)))
    }

    fn predict_qsa(&self, s: &S, a: usize) -> (r: Result<R, LearnerError>) {
        action_value(&self.q_func, s, a)
    }

    fn predict_qs(&self, s: &S) -> (r: Result<Vec<R>, LearnerError>) {
        let phi = self.q_func.embed(s);
        match self.q_func.evaluate(&phi) {
            Ok(values) => Ok(values),
            Err(e) => Err(LearnerError::Approximation(e)),
        }
    }
}

impl<Q: Parameterised<R>, P, R: Scalar> Parameterised<R> for PAL<Q, P, R> {
    open spec fn spec_weights(&self) -> Seq<Seq<R>> {
        self.q_func.spec_weights()
    }

    open spec fn spec_weights_dim(&self) -> (nat, nat) {
        self.q_func.spec_weights_dim()
    }

    open spec fn spec_with_weights(self, w: Seq<Seq<R>>) -> Self {
        PAL {
            q_func: self.q_func.spec_with_weights(w),
            policy: self.policy,
            alpha: self.alpha,
            gamma: self.gamma,
        }
    }

    fn weights(&self) -> (w: Vec<Vec<R>>) {
        self.q_func.weights()
    }

    fn weights_dim(&self) -> (d: (usize, usize)) {
        self.q_func.weights_dim()
    }

    fn set_weights(&mut self, w: Vec<Vec<R>>) {
        self.q_func.set_weights(w);
    }
}

/// On a terminal transition the residual is `reward - Q(s, a)`: nothing is
/// bootstrapped from the state reached, and neither the discount nor the
/// action gap plays a part.
pub proof fn lemma_terminal_residual<R: Scalar>(alpha: R, gamma: R, reward: R, qs: Seq<R>, a: usize)
    requires
        a < qs.len(),
    ensures
        spec_pal_residual(alpha, gamma, reward, qs, None, a) == Ok::<R, LearnerError>(
            reward.spec_minus(qs[a as int]),
        ),
{
}

/// The persistent error is the larger of its two candidates: it is the
/// second candidate when the advantage-learning candidate is less than it
/// or is not a number, and the advantage-learning candidate otherwise.
pub proof fn lemma_persistent_error_is_a_candidate<R: Scalar>(
    alpha: R,
    gamma: R,
    reward: R,
    qs: Seq<R>,
    nqs: Seq<R>,
    a: int,
    a_star: int,
    na_star: int,
)
    ensures
        ({
            let td = reward.spec_plus(gamma.spec_times(nqs[na_star])).spec_minus(qs[a]);
            let al = td.spec_minus(alpha.spec_times(qs[a_star].spec_minus(qs[a])));
            let persistent = td.spec_minus(alpha.spec_times(nqs[na_star].spec_minus(nqs[a])));
            let error = spec_persistent_error(alpha, gamma, reward, qs, nqs, a, a_star, na_star);
            &&& al.spec_less(persistent) || !al.spec_same(al) ==> error == persistent
            &&& !al.spec_less(persistent) && al.spec_same(al) ==> error == al
        }),
{
}

} // verus!

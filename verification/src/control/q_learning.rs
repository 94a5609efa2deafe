//! Watkins' Q-learning.
use crate::algorithms::{
    spec_lift, spec_td_error, td_error, ActionValuePredictor, Algorithm, Controller,
    LearnerError, OnlineLearner, ValuePredictor,
};
use crate::domains::Transition;
use crate::fa::{action_value, spec_action_value, Parameterised, QFunction};
use crate::parameter::Parameter;
use crate::policies::greedy::{
    greedy_action, greedy_value, spec_greedy_action, spec_greedy_value,
};
use crate::policies::Policy;
use crate::scalar::Scalar;
use vstd::prelude::*;

verus! {

/// Off-policy temporal-difference control: the behaviour policy explores,
/// the target policy is greedy in the action-value function that is being
/// learned.
pub struct QLearning<Q, P, R> {
    pub q_func: Q,
    pub policy: P,
    pub alpha: Parameter<R>,
    pub gamma: Parameter<R>,
}

impl<Q, P, R> QLearning<Q, P, R> {
    /// A learner of `q_func` that explores with `policy`, with step size
    /// `alpha` and discount `gamma`.
    pub fn new(q_func: Q, policy: P, alpha: Parameter<R>, gamma: Parameter<R>) -> (agent: Self)
        ensures
            agent == (QLearning { q_func, policy, alpha, gamma }),
    {
        QLearning { q_func, policy, alpha, gamma }
    }
}

impl<Q, P, R: Scalar> QLearning<Q, P, R> {
    /// The residual of `t`: `reward - Q(s, a)` when `t` is terminal,
    /// `reward + gamma * Q(s', a*) - Q(s, a)` with `a*` greedy in `s'`
    /// otherwise. It fails exactly when one of these predictions does.
    pub open spec fn spec_residual<S>(&self, t: Transition<S, usize, R>) -> Result<
        R,
        LearnerError,
    > where Q: QFunction<S, R> {
        match spec_action_value(&self.q_func, t.from.spec_state(), t.action) {
            Err(e) => Err(e),
            Ok(qsa) => if t.spec_terminated() {
                Ok(spec_td_error(t.reward, self.gamma.value, qsa, None))
            } else {
                match spec_greedy_value(&self.q_func, t.to.spec_state()) {
                    Err(e) => Err(e),
                    Ok(nqsna) => Ok(spec_td_error(t.reward, self.gamma.value, qsa, Some(nqsna))),
                }
            },
        }
    }

    /// The learner after handling `t`. When the residual can be computed,
    /// the value function receives the update `alpha * residual` for the
    /// action taken, at the features of the state left, and nothing else
    /// changes; whether the approximator accepted the update is not
    /// reported. When the residual cannot be computed, nothing changes and
    /// the failure is returned.
    pub open spec fn spec_handle_transition<S>(self, t: Transition<S, usize, R>) -> (
        Self,
        Option<LearnerError>,
    ) where Q: QFunction<S, R> {
        match self.spec_residual(t) {
            Err(e) => (self, Some(e)),
            Ok(residual) => (
                QLearning {
                    q_func: self.q_func.spec_update_index(
                        self.q_func.spec_embed(t.from.spec_state()),
                        t.action,
                        self.alpha.value.spec_times(residual),
                    ),
                    policy: self.policy,
                    alpha: self.alpha,
                    gamma: self.gamma,
                },
                None,
            ),
        }
    }

    /// Computes the residual of `t`.
    pub fn residual<S>(&self, t: &Transition<S, usize, R>) -> (r: Result<R, LearnerError>) where
        Q: QFunction<S, R>,

        ensures
            r == self.spec_residual(*t),
    {
        let qsa = match action_value(&self.q_func, t.from.state(), t.action) {
            Ok(v) => v,
            Err(e) => { return Err(e); },
        };
        if t.terminated() {
            Ok(td_error(t.reward, self.gamma.value(), qsa, None))
        } else {
            match greedy_value(&self.q_func, t.to.state()) {
                Ok(nqsna) => Ok(td_error(t.reward, self.gamma.value(), qsa, Some(nqsna))),
                Err(e) => Err(e),
            }
        }
    }
}

impl<Q, P: Algorithm, R: Scalar> Algorithm for QLearning<Q, P, R> {
    /// Both parameters advance by exactly one schedule tick and the
    /// behaviour policy does its own housekeeping; the value function is
    /// untouched.
    open spec fn spec_ends_episode(self, after: Self) -> bool {
        &&& after.q_func == self.q_func
        &&& self.policy.spec_ends_episode(after.policy)
        &&& after.alpha == self.alpha.spec_step()
        &&& after.gamma == self.gamma.spec_step()
    }

    fn handle_terminal(&mut self) {
        self.alpha = self.alpha.step();
        self.gamma = self.gamma.step();
        self.policy.handle_terminal();
    }
}

impl<S, Q: QFunction<S, R>, P: Policy<S, R, Action = usize>, R: Scalar> OnlineLearner<
    S,
    usize,
    R,
> for QLearning<Q, P, R> {
    /// The step is a function of the learner and the transition.
    open spec fn spec_handles(
        self,
        t: Transition<S, usize, R>,
        after: Self,
        failure: Option<LearnerError>,
    ) -> bool {
        (after, failure) == self.spec_handle_transition(t)
    }

    fn handle_transition(&mut self, t: &Transition<S, usize, R>) -> (r: Result<(), LearnerError>) {
        let residual = match self.residual(t) {
            Ok(v) => v,
            Err(e) => { return Err(e); },
        };
        let phi = self.q_func.embed(t.from.state());
        let _ = self.q_func.update_index(&phi, t.action, self.alpha.times(residual));
        Ok(())
    }
}

impl<S, Q: QFunction<S, R>, P: Policy<S, R, Action = usize>, R: Scalar> Controller<
    S,
    usize,
> for QLearning<Q, P, R> {
    /// The target policy is greedy in the value function as it stands, and
    /// asking it changes nothing.
    fn sample_target(&mut self, s: &S) -> (r: Result<usize, LearnerError>)
        ensures
            r == spec_greedy_action(&old(self).q_func, *s),
            *final(self) == *old(self),
    {
        greedy_action(&self.q_func, s)
    }

    /// The behaviour policy draws the action; the value function and the
    /// parameters are not touched.
    fn sample_behaviour(&mut self, s: &S) -> (r: Result<usize, LearnerError>)
        ensures
            old(self).policy.spec_draws(*s, final(self).policy, r),
            final(self).q_func == old(self).q_func,
            final(self).alpha == old(self).alpha,
            final(self).gamma == old(self).gamma,
    {
        self.policy.sample(s)
    }
}

impl<S, Q: QFunction<S, R>, P, R: Scalar> ValuePredictor<S, R> for QLearning<Q, P, R> {
    /// The value of a state is the value of its greedy action.
    open spec fn spec_predict_v(&self, s: S) -> Result<R, LearnerError> {
        spec_greedy_value(&self.q_func, s)
    }

    fn predict_v(&self, s: &S) -> (r: Result<R, LearnerError>) {
        greedy_value(&self.q_func, s)
    }
}

impl<S, Q: QFunction<S, R>, P, R: Scalar> ActionValuePredictor<S, usize, R> for QLearning<
    Q,
    P,
    R,
> {
    open spec fn spec_predict_qsa(&self, s: S, a: usize) -> Result<R, LearnerError> {
        spec_action_value(&self.q_func, s, a)
    }

    open spec fn spec_predict_qs(&self, s: S) -> Result<Seq<R>, LearnerError> {
        spec_lift(self.q_func.spec_evaluate(self.q_func.spec_embed(s)))
    }

    fn predict_qsa(&self, s: &S, a: usize) -> (r: Result<R, LearnerError>) {
        action_value(&self.q_func, s, a)
    }

    fn predict_qs(&self, s: &S) -> (r: Result<Vec<R>, LearnerError>) {
        let phi = self.q_func.embed(s);
        match self.q_func.evaluate(&phi) {
            Ok(values) => Ok(values),
            Err(e) => Err(LearnerError::Approximation(e)),
        }
    }
}

impl<Q: Parameterised<R>, P, R: Scalar> Parameterised<R> for QLearning<Q, P, R> {
    open spec fn spec_weights(&self) -> Seq<Seq<R>> {
        self.q_func.spec_weights()
    }

    open spec fn spec_weights_dim(&self) -> (nat, nat) {
        self.q_func.spec_weights_dim()
    }

    open spec fn spec_with_weights(self, w: Seq<Seq<R>>) -> Self {
        QLearning {
            q_func: self.q_func.spec_with_weights(w),
            policy: self.policy,
            alpha: self.alpha,
            gamma: self.gamma,
        }
    }

    fn weights(&self) -> (w: Vec<Vec<R>>) {
        self.q_func.weights()
    }

    fn weights_dim(&self) -> (d: (usize, usize)) {
        self.q_func.weights_dim()
    }

    fn set_weights(&mut self, w: Vec<Vec<R>>) {
        self.q_func.set_weights(w);
    }
}

/// On a terminal transition the residual is `reward - Q(s, a)`: nothing is
/// bootstrapped from the state reached and the discount plays no part.
pub proof fn lemma_terminal_residual<S, Q: QFunction<S, R>, P, R: Scalar>(
    agent: QLearning<Q, P, R>,
    t: Transition<S, usize, R>,
)
    requires
        t.spec_terminated(),
    ensures
        agent.spec_residual(t) == match spec_action_value(
            &agent.q_func,
            t.from.spec_state(),
            t.action,
        ) {
            Ok(qsa) => Ok(t.reward.spec_minus(qsa)),
            Err(e) => Err(e),
        },
{
}

} // verus!

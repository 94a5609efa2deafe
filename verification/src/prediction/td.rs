//! Temporal-difference learning of state values.
use crate::algorithms::{
    lift, spec_lift, spec_td_error, td_error, ActionValuePredictor, Algorithm, LearnerError,
    OnlineLearner, ValuePredictor,
};
use crate::domains::Transition;
use crate::fa::{spec_state_value, state_value, Parameterised, VFunction};
use crate::parameter::Parameter;
use crate::scalar::Scalar;
use vstd::prelude::*;

verus! {

/// One-step temporal-difference learning: the value of the state left moves
/// towards the reward plus the discounted value of the state reached.
pub struct TD<V, R> {
    pub v_func: V,
    pub alpha: Parameter<R>,
    pub gamma: Parameter<R>,
}

impl<V, R> TD<V, R> {
    /// A learner of `v_func` with step size `alpha` and discount `gamma`.
    pub fn new(v_func: V, alpha: Parameter<R>, gamma: Parameter<R>) -> (agent: Self)
        ensures
            agent == (TD { v_func, alpha, gamma }),
    {
        TD { v_func, alpha, gamma }
    }
}

impl<V, R: Scalar> TD<V, R> {
    /// The error of `t`: `reward - V(s)` when `t` is terminal, and
    /// `reward + gamma * V(s') - V(s)` otherwise. It fails exactly when one
    /// of the evaluations it needs does.
    pub open spec fn spec_error<S, A>(&self, t: Transition<S, A, R>) -> Result<
        R,
        LearnerError,
    > where V: VFunction<S, R> {
        match spec_state_value(&self.v_func, t.from.spec_state()) {
            Err(e) => Err(LearnerError::Approximation(e)),
            Ok(v) => if t.spec_terminated() {
                Ok(spec_td_error(t.reward, self.gamma.value, v, None))
            } else {
                match spec_state_value(&self.v_func, t.to.spec_state()) {
                    Err(e) => Err(LearnerError::Approximation(e)),
                    Ok(v_next) => Ok(spec_td_error(t.reward, self.gamma.value, v, Some(v_next))),
                }
            },
        }
    }

    /// The learner after handling `t`: when the error can be computed, the
    /// value function receives the update `alpha * error` at the features
    /// of the state left; otherwise nothing changes and the failure is
    /// reported.
    pub open spec fn spec_handle_transition<S, A>(self, t: Transition<S, A, R>) -> (
        Self,
        Option<LearnerError>,
    ) where V: VFunction<S, R> {
        match self.spec_error(t) {
            Err(e) => (self, Some(e)),
            Ok(error) => (
                TD {
                    v_func: self.v_func.spec_update(
                        self.v_func.spec_embed(t.from.spec_state()),
                        self.alpha.value.spec_times(error),
                    ),
                    alpha: self.alpha,
                    gamma: self.gamma,
                },
                None,
            ),
        }
    }

    /// Computes the error of `t`.
    pub fn error<S, A>(&self, t: &Transition<S, A, R>) -> (r: Result<R, LearnerError>) where
        V: VFunction<S, R>,

        ensures
            r == self.spec_error(*t),
    {
        let v = match state_value(&self.v_func, t.from.state()) {
            Ok(v) => v,
            Err(e) => { return Err(LearnerError::Approximation(e)); },
        };
        if t.terminated() {
            Ok(td_error(t.reward, self.gamma.value(), v, None))
        } else {
            match state_value(&self.v_func, t.to.state()) {
                Ok(v_next) => Ok(td_error(t.reward, self.gamma.value(), v, Some(v_next))),
                Err(e) => Err(LearnerError::Approximation(e)),
            }
        }
    }
}

impl<V, R: Scalar> Algorithm for TD<V, R> {
    /// Both parameters advance by exactly one schedule tick; nothing else
    /// changes.
    open spec fn spec_ends_episode(self, after: Self) -> bool {
        after == (TD {
            v_func: self.v_func,
            alpha: self.alpha.spec_step(),
            gamma: self.gamma.spec_step(),
        })
    }

    fn handle_terminal(&mut self) {
        self.alpha = self.alpha.step();
        self.gamma = self.gamma.step();
    }
}

impl<S, A, V: VFunction<S, R>, R: Scalar> OnlineLearner<S, A, R> for TD<V, R> {
    /// The step is a function of the learner and the transition.
    open spec fn spec_handles(
        self,
        t: Transition<S, A, R>,
        after: Self,
        failure: Option<LearnerError>,
    ) -> bool {
        (after, failure) == self.spec_handle_transition(t)
    }

    fn handle_transition(&mut self, t: &Transition<S, A, R>) -> (r: Result<(), LearnerError>) {
        let error = match self.error(t) {
            Ok(v) => v,
            Err(e) => { return Err(e); },
        };
        let phi = self.v_func.embed(t.from.state());
        let _ = self.v_func.update(&phi, self.alpha.times(error));
        Ok(())
    }
}

impl<S, V: VFunction<S, R>, R: Scalar> ValuePredictor<S, R> for TD<V, R> {
    open spec fn spec_predict_v(&self, s: S) -> Result<R, LearnerError> {
        spec_lift(spec_state_value(&self.v_func, s))
    }

    fn predict_v(&self, s: &S) -> (r: Result<R, LearnerError>) {
        lift(state_value(&self.v_func, s))
    }
}

impl<S, A, V: VFunction<S, R>, R: Scalar> ActionValuePredictor<S, A, R> for TD<V, R> {
    /// Without action values of its own, the predictor values every action
    /// as the state.
    open spec fn spec_predict_qsa(&self, s: S, a: A) -> Result<R, LearnerError> {
        self.spec_predict_v(s)
    }

    /// A vector of action values is not on offer.
    open spec fn spec_predict_qs(&self, s: S) -> Result<Seq<R>, LearnerError> {
        Err(LearnerError::UnsupportedCapability)
    }

    fn predict_qsa(&self, s: &S, a: A) -> (r: Result<R, LearnerError>) {
        self.predict_v(s)
    }

    fn predict_qs(&self, s: &S) -> (r: Result<Vec<R>, LearnerError>) {
        Err(LearnerError::UnsupportedCapability)
    }
}

impl<V: Parameterised<R>, R: Scalar> Parameterised<R> for TD<V, R> {
    open spec fn spec_weights(&self) -> Seq<Seq<R>> {
        self.v_func.spec_weights()
    }

    open spec fn spec_weights_dim(&self) -> (nat, nat) {
        self.v_func.spec_weights_dim()
    }

    open spec fn spec_with_weights(self, w: Seq<Seq<R>>) -> Self {
        TD { v_func: self.v_func.spec_with_weights(w), alpha: self.alpha, gamma: self.gamma }
    }

    fn weights(&self) -> (w: Vec<Vec<R>>) {
        self.v_func.weights()
    }

    fn weights_dim(&self) -> (d: (usize, usize)) {
        self.v_func.weights_dim()
    }

    fn set_weights(&mut self, w: Vec<Vec<R>>) {
        self.v_func.set_weights(w);
    }
}

/// On a terminal transition the error is `reward - V(s)`: nothing is
/// bootstrapped from the state reached and the discount plays no part.
pub proof fn lemma_terminal_error<S, A, V: VFunction<S, R>, R: Scalar>(
    agent: TD<V, R>,
    t: Transition<S, A, R>,
)
    requires
        t.spec_terminated(),
    ensures
        agent.spec_error(t) == match spec_state_value(&agent.v_func, t.from.spec_state()) {
            Ok(v) => Ok(t.reward.spec_minus(v)),
            Err(e) => Err(LearnerError::Approximation(e)),
        },
{
}

} // verus!

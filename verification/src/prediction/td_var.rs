//! Temporal-difference learning of the variance of the return.
use crate::algorithms::{
    lift, spec_lift, spec_td_error, td_error, ActionValuePredictor, Algorithm,
    LearnerError, OnlineLearner, ValuePredictor,
};
use crate::domains::Transition;
use crate::fa::{spec_state_value, state_value, Parameterised, VFunction};
use crate::parameter::Parameter;
use crate::scalar::Scalar;
use vstd::prelude::*;

verus! {

/// A second-moment estimator: the squared temporal-difference error of a
/// given value estimator is the reward of a temporal-difference learner
/// with discount `gamma^2`.
pub struct VarianceTD<J, V, R> {
    pub value_estimator: J,
    pub variance_estimator: V,
    pub alpha: Parameter<R>,
    pub gamma: Parameter<R>,
}

/// The reward of the variance learner: the square of the
/// temporal-difference error of the value estimator.
pub open spec fn spec_meta_reward<R: Scalar>(value_error: R) -> R {
    value_error.spec_times(value_error)
}

/// The error of the variance learner on a step with meta-reward
/// `meta_reward`: `meta_reward - v` on a terminal step, and
/// `meta_reward + (gamma * gamma) * v_next - v` otherwise.
pub open spec fn spec_variance_error<R: Scalar>(
    meta_reward: R,
    gamma: R,
    v: R,
    next: Option<R>,
) -> R {
    spec_td_error(meta_reward, gamma.spec_times(gamma), v, next)
}

impl<J, V, R> VarianceTD<J, V, R> {
    /// A learner of `variance_estimator` on top of `value_estimator`, with
    /// step size `alpha` and discount `gamma`.
    pub fn new(
        value_estimator: J,
        variance_estimator: V,
        alpha: Parameter<R>,
        gamma: Parameter<R>,
    ) -> (agent: Self)
        ensures
            agent == (VarianceTD { value_estimator, variance_estimator, alpha, gamma }),
    {
        VarianceTD { value_estimator, variance_estimator, alpha, gamma }
    }
}

impl<J, V, R: Scalar> VarianceTD<J, V, R> {
    /// The temporal-difference error of the value estimator on a step from
    /// `s` with reward `reward`: `reward - J(s)` when the step is terminal
    /// and there is no state `ns` to bootstrap from, and
    /// `reward + gamma * J(ns) - J(s)` otherwise. It fails exactly when an
    /// evaluation it needs does.
    pub open spec fn spec_value_error<S>(&self, s: S, reward: R, ns: Option<S>) -> Result<
        R,
        LearnerError,
    > where J: VFunction<S, R> {
        match spec_state_value(&self.value_estimator, s) {
            Err(e) => Err(LearnerError::Approximation(e)),
            Ok(j) => match ns {
                None => Ok(spec_td_error(reward, self.gamma.value, j, None)),
                Some(ns) => match spec_state_value(&self.value_estimator, ns) {
                    Err(e) => Err(LearnerError::Approximation(e)),
                    Ok(j_next) => Ok(spec_td_error(reward, self.gamma.value, j, Some(j_next))),
                },
            },
        }
    }

    /// Computes the temporal-difference error of the value estimator on a
    /// step from `s`; `ns` is the state reached, absent when the step is
    /// terminal.
    pub fn compute_value_error<S>(&self, s: &S, reward: R, ns: Option<&S>) -> (r: Result<
        R,
        LearnerError,
    >) where J: VFunction<S, R>
        ensures
            r == self.spec_value_error(
                *s,
                reward,
                match ns {
                    Some(ns) => Some(*ns),
                    None => None,
                },
            ),
    {
        let j = match state_value(&self.value_estimator, s) {
            Ok(v) => v,
            Err(e) => { return Err(LearnerError::Approximation(e)); },
        };
        match ns {
            None => Ok(td_error(reward, self.gamma.value(), j, None)),
            Some(ns) => match state_value(&self.value_estimator, ns) {
                Ok(j_next) => Ok(td_error(reward, self.gamma.value(), j, Some(j_next))),
                Err(e) => Err(LearnerError::Approximation(e)),
            },
        }
    }

    /// The state that `t` bootstraps from: the state reached, unless `t` is
    /// terminal.
    pub open spec fn spec_successor<S, A>(t: Transition<S, A, R>) -> Option<S> {
        if t.spec_terminated() {
            None
        } else {
            Some(t.to.spec_state())
        }
    }

    /// The error of `t`. The temporal-difference error of the value
    /// estimator, squared, is the meta-reward, and the error is
    /// `meta - Var(s)` when `t` is terminal and
    /// `meta + gamma^2 * Var(s') - Var(s)` otherwise. On a terminal step
    /// neither estimator is asked about the state reached and the discount
    /// plays no part. It fails exactly when one of the evaluations it needs
    /// does.
    pub open spec fn spec_error<S, A>(&self, t: Transition<S, A, R>) -> Result<
        R,
        LearnerError,
    > where J: VFunction<S, R>, V: VFunction<S, R> {
        match self.spec_value_error(t.from.spec_state(), t.reward, Self::spec_successor(t)) {
            Err(e) => Err(e),
            Ok(value_error) => {
                let meta_reward = spec_meta_reward(value_error);
                match spec_state_value(&self.variance_estimator, t.from.spec_state()) {
                    Err(e) => Err(LearnerError::Approximation(e)),
                    Ok(v) => if t.spec_terminated() {
                        Ok(spec_variance_error(meta_reward, self.gamma.value, v, None))
                    } else {
                        match spec_state_value(&self.variance_estimator, t.to.spec_state()) {
                            Err(e) => Err(LearnerError::Approximation(e)),
                            Ok(v_next) => Ok(
                                spec_variance_error(
                                    meta_reward,
                                    self.gamma.value,
                                    v,
                                    Some(v_next),
                                ),
                            ),
                        }
                    },
                }
            },
        }
    }

    /// The learner after handling `t`: when the error can be computed, the
    /// variance estimator receives the update `alpha * error` at the
    /// features of the state left; otherwise nothing changes and the
    /// failure is reported. The value estimator is only read.
    pub open spec fn spec_handle_transition<S, A>(self, t: Transition<S, A, R>) -> (
        Self,
        Option<LearnerError>,
    ) where J: VFunction<S, R>, V: VFunction<S, R> {
        match self.spec_error(t) {
            Err(e) => (self, Some(e)),
            Ok(error) => (
                VarianceTD {
                    value_estimator: self.value_estimator,
                    variance_estimator: self.variance_estimator.spec_update(
                        self.variance_estimator.spec_embed(t.from.spec_state()),
                        self.alpha.value.spec_times(error),
                    ),
                    alpha: self.alpha,
                    gamma: self.gamma,
                },
                None,
            ),
        }
    }

    /// Computes the error of `t`.
    pub fn error<S, A>(&self, t: &Transition<S, A, R>) -> (r: Result<R, LearnerError>) where
        J: VFunction<S, R>,
        V: VFunction<S, R>,

        ensures
            r == self.spec_error(*t),
    {
        let ns = if t.terminated() {
            None
        } else {
            Some(t.to.state())
        };
        let value_error = match self.compute_value_error(t.from.state(), t.reward, ns) {
            Ok(v) => v,
            Err(e) => { return Err(e); },
        };
        let meta_reward = value_error.times(value_error);
        let v = match state_value(&self.variance_estimator, t.from.state()) {
            Ok(v) => v,
            Err(e) => { return Err(LearnerError::Approximation(e)); },
        };
        let gamma_var = self.gamma.times(self.gamma.value());
        if t.terminated() {
            Ok(td_error(meta_reward, gamma_var, v, None))
        } else {
            match state_value(&self.variance_estimator, t.to.state()) {
                Ok(v_next) => Ok(td_error(meta_reward, gamma_var, v, Some(v_next))),
                Err(e) => Err(LearnerError::Approximation(e)),
            }
        }
    }
}

impl<J, V, R: Scalar> Algorithm for VarianceTD<J, V, R> {
    /// Both parameters advance by exactly one schedule tick; nothing else
    /// changes.
    open spec fn spec_ends_episode(self, after: Self) -> bool {
        after == (VarianceTD {
            value_estimator: self.value_estimator,
            variance_estimator: self.variance_estimator,
            alpha: self.alpha.spec_step(),
            gamma: self.gamma.spec_step(),
        })
    }

    fn handle_terminal(&mut self) {
        self.alpha = self.alpha.step();
        self.gamma = self.gamma.step();
    }
}

impl<S, A, J: VFunction<S, R>, V: VFunction<S, R>, R: Scalar> OnlineLearner<
    S,
    A,
    R,
> for VarianceTD<J, V, R> {
    /// The step is a function of the learner and the transition.
    open spec fn spec_handles(
        self,
        t: Transition<S, A, R>,
        after: Self,
        failure: Option<LearnerError>,
    ) -> bool {
        (after, failure) == self.spec_handle_transition(t)
    }

    fn handle_transition(&mut self, t: &Transition<S, A, R>) -> (r: Result<(), LearnerError>) {
        let error = match self.error(t) {
            Ok(v) => v,
            Err(e) => { return Err(e); },
        };
        let phi = self.variance_estimator.embed(t.from.state());
        let _ = self.variance_estimator.update(&phi, self.alpha.times(error));
        Ok(())
    }
}

impl<S, J, V: VFunction<S, R>, R: Scalar> ValuePredictor<S, R> for VarianceTD<J, V, R> {
    /// The predicted value of a state is its estimated variance.
    open spec fn spec_predict_v(&self, s: S) -> Result<R, LearnerError> {
        spec_lift(spec_state_value(&self.variance_estimator, s))
    }

    fn predict_v(&self, s: &S) -> (r: Result<R, LearnerError>) {
        lift(state_value(&self.variance_estimator, s))
    }
}

impl<S, A, J, V: VFunction<S, R>, R: Scalar> ActionValuePredictor<S, A, R> for VarianceTD<
    J,
    V,
    R,
> {
    /// Without action values of its own, the predictor values every action
    /// as the state.
    open spec fn spec_predict_qsa(&self, s: S, a: A) -> Result<R, LearnerError> {
        self.spec_predict_v(s)
    }

    /// A vector of action values is not on offer.
    open spec fn spec_predict_qs(&self, s: S) -> Result<Seq<R>, LearnerError> {
        Err(LearnerError::UnsupportedCapability)
    }

    fn predict_qsa(&self, s: &S, a: A) -> (r: Result<R, LearnerError>) {
        self.predict_v(s)
    }

    fn predict_qs(&self, s: &S) -> (r: Result<Vec<R>, LearnerError>) {
        Err(LearnerError::UnsupportedCapability)
    }
}

impl<J, V: Parameterised<R>, R: Scalar> Parameterised<R> for VarianceTD<J, V, R> {
    open spec fn spec_weights(&self) -> Seq<Seq<R>> {
        self.variance_estimator.spec_weights()
    }

    open spec fn spec_weights_dim(&self) -> (nat, nat) {
        self.variance_estimator.spec_weights_dim()
    }

    open spec fn spec_with_weights(self, w: Seq<Seq<R>>) -> Self {
        VarianceTD {
            value_estimator: self.value_estimator,
            variance_estimator: self.variance_estimator.spec_with_weights(w),
            alpha: self.alpha,
            gamma: self.gamma,
        }
    }

    fn weights(&self) -> (w: Vec<Vec<R>>) {
        self.variance_estimator.weights()
    }

    fn weights_dim(&self) -> (d: (usize, usize)) {
        self.variance_estimator.weights_dim()
    }

    fn set_weights(&mut self, w: Vec<Vec<R>>) {
        self.variance_estimator.set_weights(w);
    }
}

/// On a terminal transition the value error is `d = reward - J(s)` and the
/// error is `d * d - Var(s)`: nothing is bootstrapped from the state reached
/// by either estimator, and the discount plays no part.
pub proof fn lemma_terminal_error<S, A, J: VFunction<S, R>, V: VFunction<S, R>, R: Scalar>(
    agent: VarianceTD<J, V, R>,
    t: Transition<S, A, R>,
)
    requires
        t.spec_terminated(),
    ensures
        agent.spec_error(t) == match (
            spec_state_value(&agent.value_estimator, t.from.spec_state()),
            spec_state_value(&agent.variance_estimator, t.from.spec_state()),
        ) {
            (Err(e), _) => Err(LearnerError::Approximation(e)),
            (_, Err(e)) => Err(LearnerError::Approximation(e)),
            (Ok(j), Ok(v)) => {
                let d = t.reward.spec_minus(j);
                Ok(d.spec_times(d).spec_minus(v))
            },
        },
{
}

} // verus!

//! True-online SARSA(lambda).
use crate::algorithms::{
    spec_failure, spec_lift, ActionValuePredictor, Algorithm, Controller, LearnerError,
    OnlineLearner, ValuePredictor,
};
use crate::domains::Transition;
use crate::fa::{action_value, spec_action_value, ApproximationError, Parameterised, QFunction};
use crate::parameter::Parameter;
use crate::policies::{FinitePolicy, Policy};
use crate::scalar::Scalar;
use crate::trace::{spec_true_online, Trace};
use crate::vector::{dot, expanded, spec_dot, spec_expanded, spec_zeros};
use vstd::prelude::*;

verus! {

/// On-policy control with an eligibility trace, updated so that every step
/// reproduces the forward view of the lambda-return.
pub struct TOSARSALambda<F, P, R> {
    pub q_func: F,
    pub policy: P,
    pub alpha: Parameter<R>,
    pub gamma: Parameter<R>,
    /// The eligibility trace over the features of `q_func`.
    pub trace: Trace<R>,
    /// The value predicted for the current state-action pair one step ago.
    pub q_old: R,
}

/// What a step reads before it writes: the value of the pair left and,
/// unless the step is terminal, the value of the pair reached.
pub struct Readings<R> {
    pub qsa: R,
    pub next: Option<R>,
}

impl<F, P, R: Scalar> TOSARSALambda<F, P, R> {
    /// A learner of `q_func` that acts with `policy`, starting an episode:
    /// the carried value is zero.
    pub fn new(
        q_func: F,
        policy: P,
        trace: Trace<R>,
        alpha: Parameter<R>,
        gamma: Parameter<R>,
    ) -> (agent: Self)
        ensures
            agent == (TOSARSALambda { q_func, policy, alpha, gamma, trace, q_old: R::spec_zero() }),
    {
        TOSARSALambda { q_func, policy, alpha, gamma, trace, q_old: R::zero() }
    }

    /// The rate at which the trace decays: `lambda * gamma`.
    pub open spec fn spec_decay_rate(&self) -> R {
        self.trace.lambda.value.spec_times(self.gamma.value)
    }

    /// What the step for `t` reads, given the action `next_action` drawn
    /// for the state reached; no next action means that the step is
    /// terminal. Reading fails when a prediction fails, and with a
    /// dimension mismatch when the trace does not have one entry per
    /// feature of the value function.
    pub open spec fn spec_read<S>(
        &self,
        t: Transition<S, usize, R>,
        next_action: Option<usize>,
    ) -> Result<Readings<R>, LearnerError> where F: QFunction<S, R> {
        if self.trace@.len() != self.q_func.spec_n_features() {
            Err(LearnerError::Approximation(ApproximationError::DimensionMismatch))
        } else {
            match spec_action_value(&self.q_func, t.from.spec_state(), t.action) {
                Err(e) => Err(e),
                Ok(qsa) => match next_action {
                    None => Ok(Readings { qsa, next: None }),
                    Some(na) => match spec_action_value(&self.q_func, t.to.spec_state(), na) {
                        Err(e) => Err(e),
                        Ok(nqsna) => Ok(Readings { qsa, next: Some(nqsna) }),
                    },
                },
            }
        }
    }

    /// The trace that the step for `t` applies to the weights:
    /// `z = rate * z + (1 - alpha * rate * (z . phi)) * phi`, with `phi`
    /// the features of the state left, brought to the number of features of
    /// the value function, and `rate = lambda * gamma`.
    pub open spec fn spec_updated_trace<S>(&self, t: Transition<S, usize, R>) -> Seq<R> where
        F: QFunction<S, R>,
     {
        spec_true_online(
            self.alpha.value,
            self.spec_decay_rate(),
            self.trace@,
            spec_expanded(
                self.q_func.spec_embed(t.from.spec_state()),
                self.q_func.spec_n_features(),
            ),
        )
    }

    /// The residual of a step: `reward - q_old` on a terminal step,
    /// `reward + gamma * Q(s', a') - q_old` otherwise.
    pub open spec fn spec_residual(&self, reward: R, next: Option<R>) -> R {
        match next {
            None => reward.spec_minus(self.q_old),
            Some(nqsna) => reward.spec_plus(self.gamma.value.spec_times(nqsna)).spec_minus(
                self.q_old,
            ),
        }
    }

    /// The value function after the step for `t` that read `readings`: the
    /// weights of the action taken move by `alpha * residual` along the
    /// updated trace, and then by `alpha * (q_old - Q(s, a))` along the
    /// features of the state left.
    pub open spec fn spec_updated_q<S>(&self, t: Transition<S, usize, R>, readings: Readings<R>) -> F where
        F: QFunction<S, R>,
     {
        self.q_func.spec_update_index(
            self.spec_updated_trace(t),
            t.action,
            self.alpha.value.spec_times(self.spec_residual(t.reward, readings.next)),
        ).spec_update_index(
            self.q_func.spec_embed(t.from.spec_state()),
            t.action,
            self.alpha.value.spec_times(self.q_old.spec_minus(readings.qsa)),
        )
    }

    /// Whether the step for `t`, with `next_action` drawn for the state
    /// reached, leaves the learner as `after`, reporting `failure`.
    ///
    /// A step that cannot read changes nothing. One that can updates the
    /// value function as `spec_updated_q` says and carries `Q(s', a')` over
    /// as `q_old`, keeping the updated trace; a terminal step carries zero
    /// over and clears the trace. The policy and the parameters stay.
    pub open spec fn spec_learns<S>(
        self,
        t: Transition<S, usize, R>,
        next_action: Option<usize>,
        after: Self,
        failure: Option<LearnerError>,
    ) -> bool where F: QFunction<S, R> {
        &&& after.policy == self.policy
        &&& after.alpha == self.alpha
        &&& after.gamma == self.gamma
        &&& after.trace.lambda == self.trace.lambda
        &&& match self.spec_read(t, next_action) {
            Err(e) => {
                &&& failure == Some(e)
                &&& after.q_func == self.q_func
                &&& after.q_old == self.q_old
                &&& after.trace@ == self.trace@
            },
            Ok(readings) => {
                &&& failure is None
                &&& after.q_func == self.spec_updated_q(t, readings)
                &&& match readings.next {
                    None => {
                        &&& after.q_old == R::spec_zero()
                        &&& after.trace@ == spec_zeros::<R>(self.trace@.len())
                    },
                    Some(nqsna) => {
                        &&& after.q_old == nqsna
                        &&& after.trace@ == self.spec_updated_trace(t)
                    },
                }
            },
        }
    }

    /// Reads what the step for `t` depends on.
    pub fn read<S>(&self, t: &Transition<S, usize, R>, next_action: Option<usize>) -> (r: Result<
        Readings<R>,
        LearnerError,
    >) where F: QFunction<S, R>
        ensures
            r == self.spec_read(*t, next_action),
    {
        if self.trace.len() != self.q_func.n_features() {
            return Err(LearnerError::Approximation(ApproximationError::DimensionMismatch));
        }
        let qsa = match action_value(&self.q_func, t.from.state(), t.action) {
            Ok(v) => v,
            Err(e) => { return Err(e); },
        };
        match next_action {
            None => Ok(Readings { qsa, next: None }),
            Some(na) => match action_value(&self.q_func, t.to.state(), na) {
                Ok(nqsna) => Ok(Readings { qsa, next: Some(nqsna) }),
                Err(e) => Err(e),
            },
        }
    }

    /// Performs the step for `t` with the action `next_action` drawn for
    /// the state reached, or as a terminal step when there is none.
    pub fn learn<S>(&mut self, t: &Transition<S, usize, R>, next_action: Option<usize>) -> (r:
        Result<(), LearnerError>) where F: QFunction<S, R>
        ensures
            old(self).spec_learns(*t, next_action, *final(self), spec_failure(r)),
    {
        let readings = match self.read(t, next_action) {
            Ok(v) => v,
            Err(e) => { return Err(e); },
        };
        let phi = self.q_func.embed(t.from.state());
        let n = self.q_func.n_features();
        let rate = self.trace.lambda.value().times(self.gamma.value());
        let alpha = self.alpha.value();
        let q_old = self.q_old;
        self.trace.update_true_online(alpha, rate, &expanded(&phi, n));
        let z = self.trace.get();
        let residual = match readings.next {
            None => t.reward.minus(q_old),
            Some(nqsna) => t.reward.plus(self.gamma.times(nqsna)).minus(q_old),
        };
        match readings.next {
            None => {
                self.q_old = R::zero();
                self.trace.reset();
            },
            Some(nqsna) => {
                self.q_old = nqsna;
            },
        }
        let _ = self.q_func.update_index(&z, t.action, alpha.times(residual));
        let _ = self.q_func.update_index(&phi, t.action, alpha.times(q_old.minus(readings.qsa)));
        Ok(())
    }
}

impl<F, P: Algorithm, R: Scalar> Algorithm for TOSARSALambda<F, P, R> {
    /// Every parameter, the trace decay included, advances by exactly one
    /// schedule tick; the trace is cleared and the carried value is zero
    /// again. The policy does its own housekeeping, and the value function
    /// stays.
    open spec fn spec_ends_episode(self, after: Self) -> bool {
        &&& after.q_func == self.q_func
        &&& self.policy.spec_ends_episode(after.policy)
        &&& after.alpha == self.alpha.spec_step()
        &&& after.gamma == self.gamma.spec_step()
        &&& after.trace.lambda == self.trace.lambda.spec_step()
        &&& after.trace@ == spec_zeros::<R>(self.trace@.len())
        &&& after.q_old == R::spec_zero()
    }

    fn handle_terminal(&mut self) {
        self.alpha = self.alpha.step();
        self.gamma = self.gamma.step();
        self.trace.handle_terminal();
        self.q_old = R::zero();
        self.policy.handle_terminal();
    }
}

impl<S, F: QFunction<S, R>, P: Policy<S, R, Action = usize>, R: Scalar> OnlineLearner<
    S,
    usize,
    R,
> for TOSARSALambda<F, P, R> {
    /// A terminal step is `spec_learns` without a next action. Any other
    /// step first draws the next action from the policy, at the state
    /// reached. When the draw fails, its failure is reported and only the
    /// policy has changed, as the draw left it. Otherwise the step is
    /// `spec_learns` with the action drawn, from the learner with the
    /// policy as the draw left it: the value read at the state reached,
    /// the value carried over and the first update all use that action.
    open spec fn spec_handles(
        self,
        t: Transition<S, usize, R>,
        after: Self,
        failure: Option<LearnerError>,
    ) -> bool {
        let drawn = TOSARSALambda {
            q_func: self.q_func,
            policy: after.policy,
            alpha: self.alpha,
            gamma: self.gamma,
            trace: self.trace,
            q_old: self.q_old,
        };
        if t.spec_terminated() {
            self.spec_learns(t, None, after, failure)
        } else {
            exists|outcome: Result<usize, LearnerError>| #[trigger]
                self.policy.spec_draws(t.to.spec_state(), after.policy, outcome) && match outcome {
                    Err(e) => failure == Some(e) && after == drawn,
                    Ok(na) => drawn.spec_learns(t, Some(na), after, failure),
                }
        }
    }

    fn handle_transition(&mut self, t: &Transition<S, usize, R>) -> (r: Result<(), LearnerError>) {
        if t.terminated() {
            self.learn(t, None)
        } else {
            match self.policy.sample(t.to.state()) {
                Err(e) => Err(e),
                Ok(na) => self.learn(t, Some(na)),
            }
        }
    }
}

impl<S, F, P: Policy<S, R>, R: Scalar> Controller<S, P::Action> for TOSARSALambda<F, P, R> {
    /// The algorithm is on-policy: the target policy is the policy. A draw
    /// touches neither the value function nor the parameters nor the trace.
    fn sample_target(&mut self, s: &S) -> (r: Result<P::Action, LearnerError>)
        ensures
            old(self).policy.spec_draws(*s, final(self).policy, r),
            final(self).q_func == old(self).q_func,
            final(self).alpha == old(self).alpha,
            final(self).gamma == old(self).gamma,
            final(self).trace == old(self).trace,
            final(self).q_old == old(self).q_old,
    {
        self.policy.sample(s)
    }

    /// The behaviour policy is the policy as well.
    fn sample_behaviour(&mut self, s: &S) -> (r: Result<P::Action, LearnerError>)
        ensures
            old(self).policy.spec_draws(*s, final(self).policy, r),
            final(self).q_func == old(self).q_func,
            final(self).alpha == old(self).alpha,
            final(self).gamma == old(self).gamma,
            final(self).trace == old(self).trace,
            final(self).q_old == old(self).q_old,
    {
        self.policy.sample(s)
    }
}

/// The inner product of action values and action probabilities, a
/// dimension mismatch when there are not as many of the ones as of the
/// others.
pub open spec fn spec_expected_value<R: Scalar>(
    qs: Result<Seq<R>, LearnerError>,
    ps: Result<Seq<R>, LearnerError>,
) -> Result<R, LearnerError> {
    match (qs, ps) {
        (Err(e), _) => Err(e),
        (_, Err(e)) => Err(e),
        (Ok(qs), Ok(ps)) => if qs.len() == ps.len() {
            Ok(spec_dot(qs, ps))
        } else {
            Err(LearnerError::Approximation(ApproximationError::DimensionMismatch))
        },
    }
}

impl<S, F: QFunction<S, R>, P: FinitePolicy<S, R>, R: Scalar> ValuePredictor<
    S,
    R,
> for TOSARSALambda<F, P, R> {
    /// The value of a state is the expectation of its action values under
    /// the policy.
    open spec fn spec_predict_v(&self, s: S) -> Result<R, LearnerError> {
        spec_expected_value(
            spec_lift(self.q_func.spec_evaluate(self.q_func.spec_embed(s))),
            self.policy.spec_probabilities(s),
        )
    }

    fn predict_v(&self, s: &S) -> (r: Result<R, LearnerError>) {
        let phi = self.q_func.embed(s);
        let qs = match self.q_func.evaluate(&phi) {
            Ok(v) => v,
            Err(e) => { return Err(LearnerError::Approximation(e)); },
        };
        let ps = match self.policy.probabilities(s) {
            Ok(v) => v,
            Err(e) => { return Err(e); },
        };
        if qs.len() == ps.len() {
            Ok(dot(&qs, &ps))
        } else {
            Err(LearnerError::Approximation(ApproximationError::DimensionMismatch))
        }
    }
}

impl<S, F: QFunction<S, R>, P: FinitePolicy<S, R>, R: Scalar> ActionValuePredictor<
    S,
    usize,
    R,
> for TOSARSALambda<F, P, R> {
    open spec fn spec_predict_qsa(&self, s: S, a: usize) -> Result<R, LearnerError> {
        spec_action_value(&self.q_func, s, a)
    }

    open spec fn spec_predict_qs(&self, s: S) -> Result<Seq<R>, LearnerError> {
        spec_lift(self.q_func.spec_evaluate(self.q_func.spec_embed(s)))
    }

    fn predict_qsa(&self, s: &S, a: usize) -> (r: Result<R, LearnerError>) {
        action_value(&self.q_func, s, a)
    }

    fn predict_qs(&self, s: &S) -> (r: Result<Vec<R>, LearnerError>) {
        let phi = self.q_func.embed(s);
        match self.q_func.evaluate(&phi) {
            Ok(values) => Ok(values),
            Err(e) => Err(LearnerError::Approximation(e)),
        }
    }
}

impl<F: Parameterised<R>, P, R: Scalar> Parameterised<R> for TOSARSALambda<F, P, R> {
    open spec fn spec_weights(&self) -> Seq<Seq<R>> {
        self.q_func.spec_weights()
    }

    open spec fn spec_weights_dim(&self) -> (nat, nat) {
        self.q_func.spec_weights_dim()
    }

    open spec fn spec_with_weights(self, w: Seq<Seq<R>>) -> Self {
        TOSARSALambda {
            q_func: self.q_func.spec_with_weights(w),
            policy: self.policy,
            alpha: self.alpha,
            gamma: self.gamma,
            trace: self.trace,
            q_old: self.q_old,
        }
    }

    fn weights(&self) -> (w: Vec<Vec<R>>) {
        self.q_func.weights()
    }

    fn weights_dim(&self) -> (d: (usize, usize)) {
        self.q_func.weights_dim()
    }

    fn set_weights(&mut self, w: Vec<Vec<R>>) {
        self.q_func.set_weights(w);
    }
}

/// On a terminal step the residual is `reward - q_old`: nothing is
/// bootstrapped from the state reached and the discount plays no part.
pub proof fn lemma_terminal_residual<F, P, R: Scalar>(agent: TOSARSALambda<F, P, R>, reward: R)
    ensures
        agent.spec_residual(reward, None) == reward.spec_minus(agent.q_old),
{
}

/// The trace law. Entry by entry, the trace that a step applies is
/// `d * z[i] + (1 - alpha * d * (z . phi)) * phi[i]`, where `d = lambda *
/// gamma`, `z` is the trace before the step and `phi` the features of the
/// state left.
pub proof fn lemma_trace_law<S, F: QFunction<S, R>, P, R: Scalar>(
    agent: TOSARSALambda<F, P, R>,
    t: Transition<S, usize, R>,
    i: int,
)
    requires
        agent.trace@.len() == agent.q_func.spec_n_features(),
        0 <= i < agent.trace@.len(),
    ensures
        ({
            let d = agent.trace.lambda.value.spec_times(agent.gamma.value);
            let z = agent.trace@;
            let phi = spec_expanded(
                agent.q_func.spec_embed(t.from.spec_state()),
                agent.q_func.spec_n_features(),
            );
            &&& agent.spec_updated_trace(t).len() == z.len()
            &&& agent.spec_updated_trace(t)[i] == d.spec_times(z[i]).spec_plus(
                R::spec_one().spec_minus(
                    agent.alpha.value.spec_times(d).spec_times(spec_dot(z, phi)),
                ).spec_times(phi[i]),
            )
        }),
{
}

} // verus!

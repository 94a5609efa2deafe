//! Actor-critic methods driven by the critic's temporal-difference error.
use crate::algorithms::{
    spec_td_error, td_error, ActionValuePredictor, Algorithm, Controller,
    LearnerError, OnlineLearner, ValuePredictor,
};
use crate::domains::Transition;
use crate::fa::{ApproximationError, Parameterised};
use crate::parameter::Parameter;
use crate::policies::{DifferentiablePolicy, ParameterisedPolicy, Policy};
use crate::scalar::Scalar;
use crate::vector::{
    mat_cleared, mat_scale, mat_sum, mat_zeros, rows, same_shape, shapes_agree, spec_mat_cleared,
    spec_mat_scale, spec_mat_sum, spec_mat_zeros,
};
use vstd::prelude::*;

verus! {

/// The temporal-difference error of `t` under the value predictor
/// `critic`: `reward - V(s)` when `t` is terminal, and
/// `reward + gamma * V(s') - V(s)` otherwise. It fails exactly when one of
/// the predictions it needs does.
pub open spec fn spec_critic_error<S, A, R: Scalar, C: ValuePredictor<S, R>>(
    critic: &C,
    gamma: R,
    t: Transition<S, A, R>,
) -> Result<R, LearnerError> {
    match critic.spec_predict_v(t.from.spec_state()) {
        Err(e) => Err(e),
        Ok(v) => if t.spec_terminated() {
            Ok(spec_td_error(t.reward, gamma, v, None))
        } else {
            match critic.spec_predict_v(t.to.spec_state()) {
                Err(e) => Err(e),
                Ok(nv) => Ok(spec_td_error(t.reward, gamma, v, Some(nv))),
            }
        },
    }
}

/// Computes the temporal-difference error of `t` under `critic`.
pub fn critic_error<S, A, R: Scalar, C: ValuePredictor<S, R>>(
    critic: &C,
    gamma: R,
    t: &Transition<S, A, R>,
) -> (r: Result<R, LearnerError>)
    ensures
        r == spec_critic_error(critic, gamma, *t),
{
    let v = match critic.predict_v(t.from.state()) {
        Ok(v) => v,
        Err(e) => { return Err(e); },
    };
    if t.terminated() {
        Ok(td_error(t.reward, gamma, v, None))
    } else {
        match critic.predict_v(t.to.state()) {
            Ok(nv) => Ok(td_error(t.reward, gamma, v, Some(nv))),
            Err(e) => Err(e),
        }
    }
}

/// TD-error actor-critic: the critic learns from every transition, and the
/// policy is updated with the critic's error scaled by `alpha`.
pub struct TDAC<C, P, R> {
    pub critic: C,
    pub policy: P,
    pub alpha: Parameter<R>,
    pub gamma: Parameter<R>,
}

impl<C, P, R> TDAC<C, P, R> {
    /// An actor-critic of `critic` and `policy` with policy step size
    /// `alpha` and discount `gamma`.
    pub fn new(critic: C, policy: P, alpha: Parameter<R>, gamma: Parameter<R>) -> (agent: Self)
        ensures
            agent == (TDAC { critic, policy, alpha, gamma }),
    {
        TDAC { critic, policy, alpha, gamma }
    }
}

impl<C: Algorithm, P: Algorithm, R: Scalar> Algorithm for TDAC<C, P, R> {
    /// Both parameters advance by exactly one schedule tick, and the critic
    /// and the policy each do their own housekeeping.
    open spec fn spec_ends_episode(self, after: Self) -> bool {
        &&& after.alpha == self.alpha.spec_step()
        &&& after.gamma == self.gamma.spec_step()
        &&& self.critic.spec_ends_episode(after.critic)
        &&& self.policy.spec_ends_episode(after.policy)
    }

    fn handle_terminal(&mut self) {
        self.alpha = self.alpha.step();
        self.gamma = self.gamma.step();
        self.critic.handle_terminal();
        self.policy.handle_terminal();
    }
}

impl<
    S,
    A: Copy,
    C: OnlineLearner<S, A, R> + ValuePredictor<S, R>,
    P: ParameterisedPolicy<S, R, Action = A>,
    R: Scalar,
> OnlineLearner<S, A, R> for TDAC<C, P, R> {
    /// The error is computed from the critic before it learns. When it
    /// cannot be computed nothing changes. Otherwise the critic handles the
    /// transition; if that fails the policy stays, and if it succeeds the
    /// policy is updated for the action taken in the state left with
    /// `alpha * error`. The parameters stay.
    open spec fn spec_handles(
        self,
        t: Transition<S, A, R>,
        after: Self,
        failure: Option<LearnerError>,
    ) -> bool {
        &&& after.alpha == self.alpha
        &&& after.gamma == self.gamma
        &&& match spec_critic_error(&self.critic, self.gamma.value, t) {
            Err(e) => {
                &&& failure == Some(e)
                &&& after.critic == self.critic
                &&& after.policy == self.policy
            },
            Ok(error) => {
                &&& self.critic.spec_handles(t, after.critic, failure)
                &&& after.policy == if failure is None {
                    self.policy.spec_update(
                        t.from.spec_state(),
                        t.action,
                        self.alpha.value.spec_times(error),
                    )
                } else {
                    self.policy
                }
            },
        }
    }

    fn handle_transition(&mut self, t: &Transition<S, A, R>) -> (r: Result<(), LearnerError>) {
        let error = match critic_error(&self.critic, self.gamma.value(), t) {
            Ok(v) => v,
            Err(e) => { return Err(e); },
        };
        match self.critic.handle_transition(t) {
            Err(e) => Err(e),
            Ok(_) => {
                self.policy.update(t.from.state(), t.action, self.alpha.times(error));
                Ok(())
            },
        }
    }
}

impl<S, C: ValuePredictor<S, R>, P, R: Scalar> ValuePredictor<S, R> for TDAC<C, P, R> {
    /// The value of a state is the critic's.
    open spec fn spec_predict_v(&self, s: S) -> Result<R, LearnerError> {
        self.critic.spec_predict_v(s)
    }

    fn predict_v(&self, s: &S) -> (r: Result<R, LearnerError>) {
        self.critic.predict_v(s)
    }
}

impl<S, A, C: ActionValuePredictor<S, A, R>, P, R: Scalar> ActionValuePredictor<
    S,
    A,
    R,
> for TDAC<C, P, R> {
    open spec fn spec_predict_qsa(&self, s: S, a: A) -> Result<R, LearnerError> {
        self.critic.spec_predict_qsa(s, a)
    }

    open spec fn spec_predict_qs(&self, s: S) -> Result<Seq<R>, LearnerError> {
        self.critic.spec_predict_qs(s)
    }

    fn predict_qsa(&self, s: &S, a: A) -> (r: Result<R, LearnerError>) {
        self.critic.predict_qsa(s, a)
    }

    fn predict_qs(&self, s: &S) -> (r: Result<Vec<R>, LearnerError>) {
        self.critic.predict_qs(s)
    }
}

impl<S, C, P: Policy<S, R>, R: Scalar> Controller<S, P::Action> for TDAC<C, P, R> {
    /// The algorithm is on-policy: the target policy is the policy. A draw
    /// touches neither the critic nor the parameters.
    fn sample_target(&mut self, s: &S) -> (r: Result<P::Action, LearnerError>)
        ensures
            old(self).policy.spec_draws(*s, final(self).policy, r),
            final(self).critic == old(self).critic,
            final(self).alpha == old(self).alpha,
            final(self).gamma == old(self).gamma,
    {
        self.policy.sample(s)
    }

    /// The behaviour policy is the policy as well.
    fn sample_behaviour(&mut self, s: &S) -> (r: Result<P::Action, LearnerError>)
        ensures
            old(self).policy.spec_draws(*s, final(self).policy, r),
            final(self).critic == old(self).critic,
            final(self).alpha == old(self).alpha,
            final(self).gamma == old(self).gamma,
    {
        self.policy.sample(s)
    }
}

/// TD-error actor-critic with an eligibility trace over the gradient of the
/// policy's log-probability.
pub struct TDACLambda<C, P, R> {
    pub critic: C,
    pub policy: P,
    /// The trace, in the shape of the policy's weights.
    pub trace: Vec<Vec<R>>,
    pub alpha: Parameter<R>,
    pub gamma: Parameter<R>,
    pub lambda: Parameter<R>,
}

/// The trace after one more gradient: `(gamma * lambda) * trace + gradient`.
pub open spec fn spec_policy_trace<R: Scalar>(
    gamma: R,
    lambda: R,
    trace: Seq<Seq<R>>,
    gradient: Seq<Seq<R>>,
) -> Seq<Seq<R>> {
    spec_mat_sum(spec_mat_scale(gamma.spec_times(lambda), trace), gradient)
}

impl<C, P, R: Scalar> TDACLambda<C, P, R> {
    /// An actor-critic of `critic` and `policy` whose trace starts at zero,
    /// in the shape of the policy's weights.
    pub fn new(
        critic: C,
        policy: P,
        alpha: Parameter<R>,
        gamma: Parameter<R>,
        lambda: Parameter<R>,
    ) -> (agent: Self) where P: Parameterised<R>
        ensures
            agent.critic == critic,
            agent.policy == policy,
            agent.alpha == alpha,
            agent.gamma == gamma,
            agent.lambda == lambda,
            rows(agent.trace@) == spec_mat_zeros::<R>(
                policy.spec_weights_dim().0,
                policy.spec_weights_dim().1,
            ),
    {
        let dim = policy.weights_dim();
        let trace = mat_zeros(dim.0, dim.1);
        TDACLambda { critic, policy, trace, alpha, gamma, lambda }
    }

    /// What a step reads before it writes: the critic's error and the
    /// gradient of the policy's log-probability for the action taken.
    /// Reading fails when a prediction or the gradient fails, and with a
    /// dimension mismatch when the gradient does not have the shape of the
    /// trace.
    pub open spec fn spec_read<S>(&self, t: Transition<S, P::Action, R>) -> Result<
        (R, Seq<Seq<R>>),
        LearnerError,
    > where C: ValuePredictor<S, R>, P: DifferentiablePolicy<S, R> {
        match spec_critic_error(&self.critic, self.gamma.value, t) {
            Err(e) => Err(e),
            Ok(error) => match self.policy.spec_grad_log(t.from.spec_state(), t.action) {
                Err(e) => Err(e),
                Ok(gradient) => if same_shape(rows(self.trace@), gradient) {
                    Ok((error, gradient))
                } else {
                    Err(LearnerError::Approximation(ApproximationError::DimensionMismatch))
                },
            },
        }
    }
}

impl<C: Algorithm, P: Algorithm, R: Scalar> Algorithm for TDACLambda<C, P, R> {
    /// Each of the three parameters advances by exactly one tick of its own
    /// schedule, the trace is cleared, and the critic and the policy each
    /// do their own housekeeping.
    open spec fn spec_ends_episode(self, after: Self) -> bool {
        &&& after.alpha == self.alpha.spec_step()
        &&& after.gamma == self.gamma.spec_step()
        &&& after.lambda == self.lambda.spec_step()
        &&& rows(after.trace@) == spec_mat_cleared(rows(self.trace@))
        &&& self.critic.spec_ends_episode(after.critic)
        &&& self.policy.spec_ends_episode(after.policy)
    }

    fn handle_terminal(&mut self) {
        self.alpha = self.alpha.step();
        self.gamma = self.gamma.step();
        self.lambda = self.lambda.step();
        self.trace = mat_cleared(&self.trace);
        self.critic.handle_terminal();
        self.policy.handle_terminal();
    }
}

impl<
    S,
    A: Copy,
    C: OnlineLearner<S, A, R> + ValuePredictor<S, R>,
    P: ParameterisedPolicy<S, R, Action = A> + DifferentiablePolicy<S, R, Action = A>,
    R: Scalar,
> OnlineLearner<S, A, R> for TDACLambda<C, P, R> {
    /// When the step cannot read, nothing changes. Otherwise the critic
    /// handles the transition; if that fails, the trace and the policy
    /// stay. If it succeeds, the trace becomes
    /// `(gamma * lambda) * trace + gradient` and the policy's weights move
    /// by `(alpha * error) * trace`, with the trace just updated. The
    /// parameters stay.
    open spec fn spec_handles(
        self,
        t: Transition<S, A, R>,
        after: Self,
        failure: Option<LearnerError>,
    ) -> bool {
        &&& after.alpha == self.alpha
        &&& after.gamma == self.gamma
        &&& after.lambda == self.lambda
        &&& match self.spec_read(t) {
            Err(e) => {
                &&& failure == Some(e)
                &&& after.critic == self.critic
                &&& after.policy == self.policy
                &&& rows(after.trace@) == rows(self.trace@)
            },
            Ok((error, gradient)) => {
                let trace = spec_policy_trace(
                    self.gamma.value,
                    self.lambda.value,
                    rows(self.trace@),
                    gradient,
                );
                &&& self.critic.spec_handles(t, after.critic, failure)
                &&& if failure is None {
                    &&& rows(after.trace@) == trace
                    &&& after.policy == self.policy.spec_update_raw(
                        spec_mat_scale(self.alpha.value.spec_times(error), trace),
                    )
                } else {
                    &&& rows(after.trace@) == rows(self.trace@)
                    &&& after.policy == self.policy
                }
            },
        }
    }

    fn handle_transition(&mut self, t: &Transition<S, A, R>) -> (r: Result<(), LearnerError>) {
        let error = match critic_error(&self.critic, self.gamma.value(), t) {
            Ok(v) => v,
            Err(e) => { return Err(e); },
        };
        let gradient = match self.policy.grad_log(t.from.state(), t.action) {
            Ok(g) => g,
            Err(e) => { return Err(e); },
        };
        if !shapes_agree(&self.trace, &gradient) {
            return Err(LearnerError::Approximation(ApproximationError::DimensionMismatch));
        }
        match self.critic.handle_transition(t) {
            Err(e) => Err(e),
            Ok(_) => {
                let decayed = mat_scale(self.gamma.times(self.lambda.value()), &self.trace);
                proof {
                    assert forall|i: int| 0 <= i < rows(decayed@).len() implies (
                    #[trigger] rows(decayed@)[i]).len() == rows(gradient@)[i].len() by {
                        assert(rows(self.trace@)[i].len() == rows(gradient@)[i].len());
                    }
                }
                self.trace = mat_sum(&decayed, &gradient);
                let delta = mat_scale(self.alpha.times(error), &self.trace);
                self.policy.update_raw(delta);
                Ok(())
            },
        }
    }
}

impl<S, C: ValuePredictor<S, R>, P, R: Scalar> ValuePredictor<S, R> for TDACLambda<C, P, R> {
    /// The value of a state is the critic's.
    open spec fn spec_predict_v(&self, s: S) -> Result<R, LearnerError> {
        self.critic.spec_predict_v(s)
    }

    fn predict_v(&self, s: &S) -> (r: Result<R, LearnerError>) {
        self.critic.predict_v(s)
    }
}

impl<S, A, C: ActionValuePredictor<S, A, R>, P, R: Scalar> ActionValuePredictor<
    S,
    A,
    R,
> for TDACLambda<C, P, R> {
    open spec fn spec_predict_qsa(&self, s: S, a: A) -> Result<R, LearnerError> {
        self.critic.spec_predict_qsa(s, a)
    }

    open spec fn spec_predict_qs(&self, s: S) -> Result<Seq<R>, LearnerError> {
        self.critic.spec_predict_qs(s)
    }

    fn predict_qsa(&self, s: &S, a: A) -> (r: Result<R, LearnerError>) {
        self.critic.predict_qsa(s, a)
    }

    fn predict_qs(&self, s: &S) -> (r: Result<Vec<R>, LearnerError>) {
        self.critic.predict_qs(s)
    }
}

impl<S, C, P: Policy<S, R>, R: Scalar> Controller<S, P::Action> for TDACLambda<C, P, R> {
    /// The algorithm is on-policy: the target policy is the policy. A draw
    /// touches neither the critic nor the trace nor the parameters.
    fn sample_target(&mut self, s: &S) -> (r: Result<P::Action, LearnerError>)
        ensures
            old(self).policy.spec_draws(*s, final(self).policy, r),
            final(self).critic == old(self).critic,
            final(self).trace == old(self).trace,
            final(self).alpha == old(self).alpha,
            final(self).gamma == old(self).gamma,
            final(self).lambda == old(self).lambda,
    {
        self.policy.sample(s)
    }

    /// The behaviour policy is the policy as well.
    fn sample_behaviour(&mut self, s: &S) -> (r: Result<P::Action, LearnerError>)
        ensures
            old(self).policy.spec_draws(*s, final(self).policy, r),
            final(self).critic == old(self).critic,
            final(self).trace == old(self).trace,
            final(self).alpha == old(self).alpha,
            final(self).gamma == old(self).gamma,
            final(self).lambda == old(self).lambda,
    {
        self.policy.sample(s)
    }
}

/// On a terminal transition the critic's error is `reward - V(s)`: nothing
/// is bootstrapped from the state reached and the discount plays no part.
pub proof fn lemma_terminal_error<S, A, R: Scalar, C: ValuePredictor<S, R>>(
    critic: &C,
    gamma: R,
    t: Transition<S, A, R>,
)
    requires
        t.spec_terminated(),
    ensures
        spec_critic_error(critic, gamma, t) == match critic.spec_predict_v(t.from.spec_state()) {
            Ok(v) => Ok(t.reward.spec_minus(v)),
            Err(e) => Err(e),
        },
{
}

} // verus!

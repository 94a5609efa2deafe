//! Greedy-GQ: off-policy gradient temporal-difference control.
use crate::algorithms::{
    spec_lift, ActionValuePredictor, Algorithm, Controller, LearnerError,
    OnlineLearner, ValuePredictor,
};
use crate::domains::Transition;
use crate::fa::{
    action_value, evaluate_index, spec_action_value, spec_evaluate_index, Embedding, Parameterised,
    QFunction, VFunction,
};
use crate::parameter::Parameter;
use crate::policies::greedy::{
    greedy_action, greedy_probabilities, spec_greedy_action, spec_greedy_probabilities,
};
use crate::policies::Policy;
use crate::scalar::Scalar;
use crate::vector::{
    difference, dot, expanded, scale, spec_difference, spec_dot, spec_expanded, spec_scale,
};
use vstd::prelude::*;

verus! {

/// Gradient-TD control with a primary action-value function `fa_q` and a
/// secondary state-value function `fa_w` that estimates the projected TD
/// error. The step size of the secondary weights is `alpha * beta`, that of
/// the primary weights `alpha`.
pub struct GreedyGQ<Q, W, PB, R> {
    pub fa_q: Q,
    pub fa_w: W,
    pub behaviour_policy: PB,
    pub alpha: Parameter<R>,
    pub beta: Parameter<R>,
    pub gamma: Parameter<R>,
}

/// The direction of the primary update on a non-terminal step:
/// `residual * phi - (estimate * gamma) * phi'`, both feature vectors
/// brought to `n` entries.
pub open spec fn spec_gq_direction<R: Scalar>(
    residual: R,
    estimate: R,
    gamma: R,
    phi: Seq<R>,
    next_phi: Seq<R>,
    n: nat,
) -> Seq<R> {
    spec_difference(
        spec_scale(residual, spec_expanded(phi, n)),
        spec_scale(estimate.spec_times(gamma), spec_expanded(next_phi, n)),
    )
}

/// Computes the direction of the primary update on a non-terminal step.
pub fn gq_direction<R: Scalar>(
    residual: R,
    estimate: R,
    gamma: R,
    phi: &Vec<R>,
    next_phi: &Vec<R>,
    n: usize,
) -> (out: Vec<R>)
    ensures
        out@ == spec_gq_direction(residual, estimate, gamma, phi@, next_phi@, n as nat),
{
    let gradient = scale(residual, &expanded(phi, n));
    let correction = scale(estimate.times(gamma), &expanded(next_phi, n));
    difference(&gradient, &correction)
}

/// What one step reads before it writes: the features of the two states
/// under the secondary embedding, the secondary estimate and the residual.
pub struct GqStep<R> {
    pub phi: Vec<R>,
    pub next_phi: Option<Vec<R>>,
    pub estimate: R,
    pub residual: R,
}

/// What one step reads before it writes, as specifications see it.
pub struct IdealGqStep<R> {
    pub phi: Seq<R>,
    pub next_phi: Option<Seq<R>>,
    pub estimate: R,
    pub residual: R,
}

impl<R> View for GqStep<R> {
    type V = IdealGqStep<R>;

    open spec fn view(&self) -> IdealGqStep<R> {
        IdealGqStep {
            phi: self.phi@,
            next_phi: match self.next_phi {
                Some(v) => Some(v@),
                None => None,
            },
            estimate: self.estimate,
            residual: self.residual,
        }
    }
}

impl<Q, W, PB, R> GreedyGQ<Q, W, PB, R> {
    /// A learner of `fa_q` with correction weights `fa_w` that explores
    /// with `behaviour_policy`.
    pub fn new(
        fa_q: Q,
        fa_w: W,
        behaviour_policy: PB,
        alpha: Parameter<R>,
        beta: Parameter<R>,
        gamma: Parameter<R>,
    ) -> (agent: Self)
        ensures
            agent == (GreedyGQ { fa_q, fa_w, behaviour_policy, alpha, beta, gamma }),
    {
        GreedyGQ { fa_q, fa_w, behaviour_policy, alpha, beta, gamma }
    }
}

impl<Q, W, PB, R: Scalar> GreedyGQ<Q, W, PB, R> {
    /// What the step for `t` reads. All features come from the embedding of
    /// `fa_w`. The residual is `reward - Q(s, a)` when `t` is terminal and
    /// `reward + gamma * Q(s', a*) - Q(s, a)` otherwise, where `a*` is
    /// greedy in `fa_q` at the state reached. Reading fails when an
    /// evaluation fails or there is no greedy action.
    pub open spec fn spec_read<S>(&self, t: Transition<S, usize, R>) -> Result<
        IdealGqStep<R>,
        LearnerError,
    > where Q: QFunction<S, R>, W: VFunction<S, R> {
        let phi = self.fa_w.spec_embed(t.from.spec_state());
        match (self.fa_w.spec_evaluate(phi), spec_evaluate_index(&self.fa_q, phi, t.action)) {
            (Err(e), _) => Err(LearnerError::Approximation(e)),
            (_, Err(e)) => Err(LearnerError::Approximation(e)),
            (Ok(estimate), Ok(qsa)) => if t.spec_terminated() {
                Ok(
                    IdealGqStep {
                        phi,
                        next_phi: None,
                        estimate,
                        residual: t.reward.spec_minus(qsa),
                    },
                )
            } else {
                let next_phi = self.fa_w.spec_embed(t.to.spec_state());
                match spec_greedy_action(&self.fa_q, t.to.spec_state()) {
                    Err(e) => Err(e),
                    Ok(na) => match spec_evaluate_index(&self.fa_q, next_phi, na) {
                        Err(e) => Err(LearnerError::Approximation(e)),
                        Ok(nqsna) => Ok(
                            IdealGqStep {
                                phi,
                                next_phi: Some(next_phi),
                                estimate,
                                residual: t.reward.spec_plus(
                                    self.gamma.value.spec_times(nqsna),
                                ).spec_minus(qsa),
                            },
                        ),
                    },
                }
            },
        }
    }

    /// The learner after the writes of a step that read `step` for action
    /// `action`.
    ///
    /// The secondary weights move by `(alpha * beta) * (residual -
    /// estimate)` at the features of the state left. The primary weights
    /// move, for the action taken, by `alpha * residual` at those features
    /// when the step is terminal, and otherwise by `alpha` along
    /// `residual * phi - (estimate * gamma) * phi'`.
    pub open spec fn spec_write<S>(self, step: IdealGqStep<R>, action: usize) -> Self where
        Q: QFunction<S, R>,
        W: VFunction<S, R>,
     {
        let fa_w = self.fa_w.spec_update(
            step.phi,
            self.alpha.value.spec_times(self.beta.value).spec_times(
                step.residual.spec_minus(step.estimate),
            ),
        );
        let fa_q = match step.next_phi {
            None => self.fa_q.spec_update_index(
                step.phi,
                action,
                self.alpha.value.spec_times(step.residual),
            ),
            Some(next_phi) => self.fa_q.spec_update_index(
                spec_gq_direction(
                    step.residual,
                    step.estimate,
                    self.gamma.value,
                    step.phi,
                    next_phi,
                    Embedding::<S, R>::spec_n_features(&self.fa_q),
                ),
                action,
                self.alpha.value,
            ),
        };
        GreedyGQ {
            fa_q,
            fa_w,
            behaviour_policy: self.behaviour_policy,
            alpha: self.alpha,
            beta: self.beta,
            gamma: self.gamma,
        }
    }

    /// The learner after handling `t`: what `spec_write` makes of what
    /// `spec_read` reads, and the learner unchanged, with the failure
    /// reported, when reading fails.
    pub open spec fn spec_handle_transition<S>(self, t: Transition<S, usize, R>) -> (
        Self,
        Option<LearnerError>,
    ) where Q: QFunction<S, R>, W: VFunction<S, R> {
        match self.spec_read(t) {
            Err(e) => (self, Some(e)),
            Ok(step) => (self.spec_write::<S>(step, t.action), None),
        }
    }

    /// Reads what the step for `t` depends on.
    pub fn read<S>(&self, t: &Transition<S, usize, R>) -> (r: Result<GqStep<R>, LearnerError>) where
        Q: QFunction<S, R>,
        W: VFunction<S, R>,

        ensures
            match (r, self.spec_read(*t)) {
                (Ok(step), Ok(expected)) => step@ == expected,
                (Err(e), Err(expected)) => e == expected,
                _ => false,
            },
    {
        let phi = self.fa_w.embed(t.from.state());
        let estimate = match self.fa_w.evaluate(&phi) {
            Ok(v) => v,
            Err(e) => { return Err(LearnerError::Approximation(e)); },
        };
        let qsa = match evaluate_index(&self.fa_q, &phi, t.action) {
            Ok(v) => v,
            Err(e) => { return Err(LearnerError::Approximation(e)); },
        };
        if t.terminated() {
            Ok(GqStep { phi, next_phi: None, estimate, residual: t.reward.minus(qsa) })
        } else {
            let ns = t.to.state();
            let next_phi = self.fa_w.embed(ns);
            let na = match greedy_action(&self.fa_q, ns) {
                Ok(a) => a,
                Err(e) => { return Err(e); },
            };
            let nqsna = match evaluate_index(&self.fa_q, &next_phi, na) {
                Ok(v) => v,
                Err(e) => { return Err(LearnerError::Approximation(e)); },
            };
            let residual = t.reward.plus(self.gamma.times(nqsna)).minus(qsa);
            Ok(GqStep { phi, next_phi: Some(next_phi), estimate, residual })
        }
    }

    /// Applies the writes of a step that read `step` for action `action`.
    /// Updates that an approximator rejects are skipped without report.
    pub fn write<S>(&mut self, step: &GqStep<R>, action: usize) where
        Q: QFunction<S, R>,
        W: VFunction<S, R>,

        ensures
            *final(self) == old(self).spec_write::<S>(step@, action),
    {
        let secondary = self.alpha.value().times(self.beta.value()).times(
            step.residual.minus(step.estimate),
        );
        let n = Embedding::<S, R>::n_features(&self.fa_q);
        let alpha = self.alpha.value();
        let gamma = self.gamma.value();
        let _ = self.fa_w.update(&step.phi, secondary);
        match &step.next_phi {
            None => {
                let _ = self.fa_q.update_index(&step.phi, action, alpha.times(step.residual));
            },
            Some(next_phi) => {
                let direction = gq_direction(
                    step.residual,
                    step.estimate,
                    gamma,
                    &step.phi,
                    next_phi,
                    n,
                );
                let _ = self.fa_q.update_index(&direction, action, alpha);
            },
        }
    }
}

impl<Q, W, PB: Algorithm, R: Scalar> Algorithm for GreedyGQ<Q, W, PB, R> {
    /// The three parameters advance by exactly one schedule tick each,
    /// independently, and the behaviour policy does its own housekeeping;
    /// the value functions are untouched.
    open spec fn spec_ends_episode(self, after: Self) -> bool {
        &&& after.fa_q == self.fa_q
        &&& after.fa_w == self.fa_w
        &&& self.behaviour_policy.spec_ends_episode(after.behaviour_policy)
        &&& after.alpha == self.alpha.spec_step()
        &&& after.beta == self.beta.spec_step()
        &&& after.gamma == self.gamma.spec_step()
    }

    fn handle_terminal(&mut self) {
        self.alpha = self.alpha.step();
        self.beta = self.beta.step();
        self.gamma = self.gamma.step();
        self.behaviour_policy.handle_terminal();
    }
}

impl<
    S,
    Q: QFunction<S, R>,
    W: VFunction<S, R>,
    PB: Policy<S, R, Action = usize>,
    R: Scalar,
> OnlineLearner<S, usize, R> for GreedyGQ<Q, W, PB, R> {
    /// The step is a function of the learner and the transition.
    open spec fn spec_handles(
        self,
        t: Transition<S, usize, R>,
        after: Self,
        failure: Option<LearnerError>,
    ) -> bool {
        (after, failure) == self.spec_handle_transition(t)
    }

    fn handle_transition(&mut self, t: &Transition<S, usize, R>) -> (r: Result<(), LearnerError>) {
        let step = match self.read(t) {
            Ok(step) => step,
            Err(e) => { return Err(e); },
        };
        self.write::<S>(&step, t.action);
        Ok(())
    }
}

impl<S, Q: QFunction<S, R>, W, PB, R: Scalar> ValuePredictor<S, R> for GreedyGQ<Q, W, PB, R> {
    /// The value of a state is the inner product of its action values with
    /// the probabilities of the greedy policy.
    open spec fn spec_predict_v(&self, s: S) -> Result<R, LearnerError> {
        match (
            spec_lift(self.fa_q.spec_evaluate(self.fa_q.spec_embed(s))),
            spec_greedy_probabilities(&self.fa_q, s),
        ) {
            (Ok(qs), Ok(ps)) => Ok(spec_dot(qs, ps)),
            (Err(e), _) => Err(e),
            (_, Err(e)) => Err(e),
        }
    }

    fn predict_v(&self, s: &S) -> (r: Result<R, LearnerError>) {
        let phi = self.fa_q.embed(s);
        let qs = match self.fa_q.evaluate(&phi) {
            Ok(v) => v,
            Err(e) => { return Err(LearnerError::Approximation(e)); },
        };
        let ps = match greedy_probabilities(&self.fa_q, s) {
            Ok(v) => v,
            Err(e) => { return Err(e); },
        };
        Ok(dot(&qs, &ps))
    }
}

impl<S, Q: QFunction<S, R>, W, PB, R: Scalar> ActionValuePredictor<S, usize, R> for GreedyGQ<
    Q,
    W,
    PB,
    R,
> {
    open spec fn spec_predict_qsa(&self, s: S, a: usize) -> Result<R, LearnerError> {
        spec_action_value(&self.fa_q, s, a)
    }

    open spec fn spec_predict_qs(&self, s: S) -> Result<Seq<R>, LearnerError> {
        spec_lift(self.fa_q.spec_evaluate(self.fa_q.spec_embed(s)))
    }

    fn predict_qsa(&self, s: &S, a: usize) -> (r: Result<R, LearnerError>) {
        action_value(&self.fa_q, s, a)
    }

    fn predict_qs(&self, s: &S) -> (r: Result<Vec<R>, LearnerError>) {
        let phi = self.fa_q.embed(s);
        match self.fa_q.evaluate(&phi) {
            Ok(values) => Ok(values),
            Err(e) => Err(LearnerError::Approximation(e)),
        }
    }
}

impl<S, Q: QFunction<S, R>, W, PB: Policy<S, R, Action = usize>, R: Scalar> Controller<
    S,
    usize,
> for GreedyGQ<Q, W, PB, R> {
    /// The target policy is greedy in the primary value function as it
    /// stands, and asking it changes nothing.
    fn sample_target(&mut self, s: &S) -> (r: Result<usize, LearnerError>)
        ensures
            r == spec_greedy_action(&old(self).fa_q, *s),
            *final(self) == *old(self),
    {
        greedy_action(&self.fa_q, s)
    }

    /// The behaviour policy draws the action; the value functions and the
    /// parameters are not touched.
    fn sample_behaviour(&mut self, s: &S) -> (r: Result<usize, LearnerError>)
        ensures
            old(self).behaviour_policy.spec_draws(*s, final(self).behaviour_policy, r),
            final(self).fa_q == old(self).fa_q,
            final(self).fa_w == old(self).fa_w,
            final(self).alpha == old(self).alpha,
            final(self).beta == old(self).beta,
            final(self).gamma == old(self).gamma,
    {
        self.behaviour_policy.sample(s)
    }
}

impl<Q: Parameterised<R>, W, PB, R: Scalar> Parameterised<R> for GreedyGQ<Q, W, PB, R> {
    open spec fn spec_weights(&self) -> Seq<Seq<R>> {
        self.fa_q.spec_weights()
    }

    open spec fn spec_weights_dim(&self) -> (nat, nat) {
        self.fa_q.spec_weights_dim()
    }

    open spec fn spec_with_weights(self, w: Seq<Seq<R>>) -> Self {
        GreedyGQ {
            fa_q: self.fa_q.spec_with_weights(w),
            fa_w: self.fa_w,
            behaviour_policy: self.behaviour_policy,
            alpha: self.alpha,
            beta: self.beta,
            gamma: self.gamma,
        }
    }

    fn weights(&self) -> (w: Vec<Vec<R>>) {
        self.fa_q.weights()
    }

    fn weights_dim(&self) -> (d: (usize, usize)) {
        self.fa_q.weights_dim()
    }

    fn set_weights(&mut self, w: Vec<Vec<R>>) {
        self.fa_q.set_weights(w);
    }
}

/// On a terminal transition the residual is `reward - Q(s, a)`: nothing is
/// bootstrapped from the state reached and the discount plays no part.
pub proof fn lemma_terminal_residual<S, Q: QFunction<S, R>, W: VFunction<S, R>, PB, R: Scalar>(
    agent: GreedyGQ<Q, W, PB, R>,
    t: Transition<S, usize, R>,
)
    requires
        t.spec_terminated(),
    ensures
        agent.spec_read(t) matches Ok(step) ==> {
            &&& step.next_phi is None
            &&& spec_evaluate_index(
                &agent.fa_q,
                agent.fa_w.spec_embed(t.from.spec_state()),
                t.action,
            ) matches Ok(qsa) && step.residual == t.reward.spec_minus(qsa)
        },
{
}

} // verus!

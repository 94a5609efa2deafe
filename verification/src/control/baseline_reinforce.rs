//! REINFORCE with a learned baseline.
use crate::algorithms::{
    ActionValuePredictor, Algorithm, BatchLearner, Controller, LearnerError,
};
use crate::domains::Transition;
use crate::fa::Parameterised;
use crate::parameter::Parameter;
use crate::policies::{ParameterisedPolicy, Policy};
use crate::scalar::Scalar;
use vstd::prelude::*;

verus! {

/// Monte-Carlo policy gradient: after an episode, the policy is moved at
/// every step towards the return that followed it, less a learned
/// baseline.
pub struct BaselineREINFORCE<B, P, R> {
    pub policy: P,
    pub baseline: B,
    pub alpha: Parameter<R>,
    pub gamma: Parameter<R>,
}

/// The discounted return that follows step `k` of `batch`, accumulated
/// backwards from zero after the last step: `G[k] = reward[k] + gamma *
/// G[k + 1]`.
pub open spec fn spec_return<S, A, R: Scalar>(
    batch: Seq<Transition<S, A, R>>,
    gamma: R,
    k: int,
) -> R
    decreases batch.len() - k,
{
    if k < 0 || k >= batch.len() {
        R::spec_zero()
    } else {
        batch[k].reward.spec_plus(gamma.spec_times(spec_return(batch, gamma, k + 1)))
    }
}

/// The policy after the reverse pass has handled the steps `k..` of
/// `batch`, last step first, and the failure that stopped it, if any.
///
/// Step `j` updates the policy for the action taken in the state left with
/// `alpha * (G[j] - baseline(s, a))`; the pass stops at the first step
/// whose baseline cannot be predicted.
pub open spec fn spec_reverse_pass<
    S,
    A,
    R: Scalar,
    B: ActionValuePredictor<S, A, R>,
    P: ParameterisedPolicy<S, R, Action = A>,
>(
    policy: P,
    baseline: &B,
    batch: Seq<Transition<S, A, R>>,
    alpha: R,
    gamma: R,
    k: int,
) -> (P, Option<LearnerError>)
    decreases batch.len() - k,
{
    if k < 0 || k >= batch.len() {
        (policy, None)
    } else {
        let (later, failure) = spec_reverse_pass(policy, baseline, batch, alpha, gamma, k + 1);
        if failure is Some {
            (later, failure)
        } else {
            let t = batch[k];
            match baseline.spec_predict_qsa(t.from.spec_state(), t.action) {
                Err(e) => (later, Some(e)),
                Ok(b) => (
                    later.spec_update(
                        t.from.spec_state(),
                        t.action,
                        alpha.spec_times(spec_return(batch, gamma, k).spec_minus(b)),
                    ),
                    None,
                ),
            }
        }
    }
}

/// A pass that has failed is not continued: the earlier steps leave the
/// policy and the failure as they are.
pub proof fn lemma_failed_pass_stops<
    S,
    A,
    R: Scalar,
    B: ActionValuePredictor<S, A, R>,
    P: ParameterisedPolicy<S, R, Action = A>,
>(policy: P, baseline: &B, batch: Seq<Transition<S, A, R>>, alpha: R, gamma: R, j: int, k: int)
    requires
        0 <= j <= k < batch.len(),
        spec_reverse_pass(policy, baseline, batch, alpha, gamma, k).1 is Some,
    ensures
        spec_reverse_pass(policy, baseline, batch, alpha, gamma, j) == spec_reverse_pass(
            policy,
            baseline,
            batch,
            alpha,
            gamma,
            k,
        ),
    decreases k - j,
{
    if j < k {
        lemma_failed_pass_stops(policy, baseline, batch, alpha, gamma, j + 1, k);
    }
}

impl<B, P, R> BaselineREINFORCE<B, P, R> {
    /// A learner of `policy` with baseline `baseline`, step size `alpha`
    /// and discount `gamma`.
    pub fn new(policy: P, baseline: B, alpha: Parameter<R>, gamma: Parameter<R>) -> (agent: Self)
        ensures
            agent == (BaselineREINFORCE { policy, baseline, alpha, gamma }),
    {
        BaselineREINFORCE { policy, baseline, alpha, gamma }
    }
}

impl<B: Algorithm, P: Algorithm, R: Scalar> Algorithm for BaselineREINFORCE<B, P, R> {
    /// Both parameters advance by exactly one schedule tick, and the policy
    /// and the baseline each do their own housekeeping.
    open spec fn spec_ends_episode(self, after: Self) -> bool {
        &&& after.alpha == self.alpha.spec_step()
        &&& after.gamma == self.gamma.spec_step()
        &&& self.policy.spec_ends_episode(after.policy)
        &&& self.baseline.spec_ends_episode(after.baseline)
    }

    fn handle_terminal(&mut self) {
        self.alpha = self.alpha.step();
        self.gamma = self.gamma.step();
        self.policy.handle_terminal();
        self.baseline.handle_terminal();
    }
}

impl<
    S,
    A: Copy,
    B: BatchLearner<S, A, R> + ActionValuePredictor<S, A, R>,
    P: ParameterisedPolicy<S, R, Action = A>,
    R: Scalar,
> BatchLearner<S, A, R> for BaselineREINFORCE<B, P, R> {
    /// The baseline consumes the whole batch first. If that fails, the
    /// policy stays and the failure is reported. Otherwise the policy is
    /// what one reverse pass over the batch makes of it, with the baseline
    /// as it stands after the batch. The parameters stay.
    open spec fn spec_handles_batch(
        self,
        batch: Seq<Transition<S, A, R>>,
        after: Self,
        failure: Option<LearnerError>,
    ) -> bool {
        &&& after.alpha == self.alpha
        &&& after.gamma == self.gamma
        &&& {
            ||| {
                &&& failure is Some
                &&& self.baseline.spec_handles_batch(batch, after.baseline, failure)
                &&& after.policy == self.policy
            }
            ||| {
                &&& self.baseline.spec_handles_batch(batch, after.baseline, None)
                &&& (after.policy, failure) == spec_reverse_pass(
                    self.policy,
                    &after.baseline,
                    batch,
                    self.alpha.value,
                    self.gamma.value,
                    0,
                )
            }
        }
    }

    fn handle_batch(&mut self, batch: &[Transition<S, A, R>]) -> (r: Result<(), LearnerError>) {
        match self.baseline.handle_batch(batch) {
            Err(e) => { return Err(e); },
            Ok(_) => {},
        }
        let alpha = self.alpha.value();
        let gamma = self.gamma.value();
        let mut ret = R::zero();
        let mut k: usize = batch.len();
        while k > 0
            invariant
                k <= batch@.len(),
                self.alpha == old(self).alpha,
                self.gamma == old(self).gamma,
                alpha == self.alpha.value,
                gamma == self.gamma.value,
                old(self).baseline.spec_handles_batch(batch@, self.baseline, None),
                ret == spec_return(batch@, gamma, k as int),
                (self.policy, None::<LearnerError>) == spec_reverse_pass(
                    old(self).policy,
                    &self.baseline,
                    batch@,
                    alpha,
                    gamma,
                    k as int,
                ),
            decreases k,
        {
            k = k - 1;
            let t = &batch[k];
            let s = t.from.state();
            let b = match self.baseline.predict_qsa(s, t.action) {
                Ok(v) => v,
                Err(e) => {
                    proof {
                        lemma_failed_pass_stops(
                            old(self).policy,
                            &self.baseline,
                            batch@,
                            alpha,
                            gamma,
                            0,
                            k as int,
                        );
                    }
                    return Err(e);
                },
            };
            ret = t.reward.plus(gamma.times(ret));
            self.policy.update(s, t.action, alpha.times(ret.minus(b)));
        }
        Ok(())
    }
}

impl<S, B, P: Policy<S, R>, R: Scalar> Controller<S, P::Action> for BaselineREINFORCE<B, P, R> {
    /// The algorithm is on-policy: the target policy is the policy. A draw
    /// touches neither the baseline nor the parameters.
    fn sample_target(&mut self, s: &S) -> (r: Result<P::Action, LearnerError>)
        ensures
            old(self).policy.spec_draws(*s, final(self).policy, r),
            final(self).baseline == old(self).baseline,
            final(self).alpha == old(self).alpha,
            final(self).gamma == old(self).gamma,
    {
        self.policy.sample(s)
    }

    /// The behaviour policy is the policy as well.
    fn sample_behaviour(&mut self, s: &S) -> (r: Result<P::Action, LearnerError>)
        ensures
            old(self).policy.spec_draws(*s, final(self).policy, r),
            final(self).baseline == old(self).baseline,
            final(self).alpha == old(self).alpha,
            final(self).gamma == old(self).gamma,
    {
        self.policy.sample(s)
    }
}

impl<B, P: Parameterised<R>, R: Scalar> Parameterised<R> for BaselineREINFORCE<B, P, R> {
    open spec fn spec_weights(&self) -> Seq<Seq<R>> {
        self.policy.spec_weights()
    }

    open spec fn spec_weights_dim(&self) -> (nat, nat) {
        self.policy.spec_weights_dim()
    }

    open spec fn spec_with_weights(self, w: Seq<Seq<R>>) -> Self {
        BaselineREINFORCE {
            policy: self.policy.spec_with_weights(w),
            baseline: self.baseline,
            alpha: self.alpha,
            gamma: self.gamma,
        }
    }

    fn weights(&self) -> (w: Vec<Vec<R>>) {
        self.policy.weights()
    }

    fn weights_dim(&self) -> (d: (usize, usize)) {
        self.policy.weights_dim()
    }

    fn set_weights(&mut self, w: Vec<Vec<R>>) {
        self.policy.set_weights(w);
    }
}

/// The return law. The return after the last step is zero, and the return
/// that follows any step is its reward plus the discounted return that
/// follows the next one; so a batch shorter than any horizon simply has a
/// shorter return.
pub proof fn lemma_return_law<S, A, R: Scalar>(batch: Seq<Transition<S, A, R>>, gamma: R, k: int)
    requires
        0 <= k <= batch.len(),
    ensures
        k == batch.len() ==> spec_return(batch, gamma, k) == R::spec_zero(),
        k < batch.len() ==> spec_return(batch, gamma, k) == batch[k].reward.spec_plus(
            gamma.spec_times(spec_return(batch, gamma, k + 1)),
        ),
{
}

/// In the reverse pass the step `k` is applied after all later steps, and
/// its update is scaled by `alpha * (G[k] - baseline(s, a))` with the
/// backward-accumulated return `G[k]`.
pub proof fn lemma_pass_applies_returns<
    S,
    A,
    R: Scalar,
    B: ActionValuePredictor<S, A, R>,
    P: ParameterisedPolicy<S, R, Action = A>,
>(policy: P, baseline: &B, batch: Seq<Transition<S, A, R>>, alpha: R, gamma: R, k: int)
    requires
        0 <= k < batch.len(),
        spec_reverse_pass(policy, baseline, batch, alpha, gamma, k).1 is None,
    ensures
        spec_reverse_pass(policy, baseline, batch, alpha, gamma, k + 1).1 is None,
        baseline.spec_predict_qsa(batch[k].from.spec_state(), batch[k].action) matches Ok(b)
            && spec_reverse_pass(policy, baseline, batch, alpha, gamma, k).0 == spec_reverse_pass(
            policy,
            baseline,
            batch,
            alpha,
            gamma,
            k + 1,
        ).0.spec_update(
            batch[k].from.spec_state(),
            batch[k].action,
            alpha.spec_times(spec_return(batch, gamma, k).spec_minus(b)),
        ),
{
}

} // verus!

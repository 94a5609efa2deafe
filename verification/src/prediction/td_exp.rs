//! Temporal-difference learning of an exponential utility.
use crate::algorithms::{
    lift, spec_lift, ActionValuePredictor, Algorithm, LearnerError, OnlineLearner,
    ValuePredictor,
};
use crate::domains::Transition;
use crate::fa::{spec_state_value, state_value, Parameterised, VFunction};
use crate::parameter::Parameter;
use crate::scalar::Scalar;
use vstd::prelude::*;

verus! {

/// A risk-sensitive value estimate: rewards enter through `exp(rho *
/// reward)`, scaled by the value of a fixed reference state.
pub struct ExponentialTD<S, V, R> {
    pub v_func: V,
    pub start_state: S,
    pub alpha: Parameter<R>,
    pub rho: Parameter<R>,
}

/// The magnitude under which the reference value counts as zero.
pub open spec fn spec_negligible<R: Scalar>() -> R {
    R::spec_from_decimal(1, 5)
}

/// The exponential-utility error of a step.
///
/// With `e = exp(rho * reward)`, the error is `(e / v_ref) * v_next - v`;
/// where the magnitude of the reference value `v_ref` is negligible, the
/// division is left out and the error is `e * v_next - v`.
pub open spec fn spec_exponential_error<R: Scalar>(
    rho: R,
    reward: R,
    v: R,
    v_next: R,
    v_ref: R,
) -> R {
    let e = rho.spec_times(reward).spec_exp();
    if v_ref.spec_magnitude().spec_less(spec_negligible::<R>()) {
        e.spec_times(v_next).spec_minus(v)
    } else {
        e.spec_over(v_ref).spec_times(v_next).spec_minus(v)
    }
}

/// Computes the exponential-utility error of a step.
pub fn exponential_error<R: Scalar>(rho: R, reward: R, v: R, v_next: R, v_ref: R) -> (error: R)
    ensures
        error == spec_exponential_error(rho, reward, v, v_next, v_ref),
{
    let e = rho.times(reward).exp();
    if v_ref.magnitude().less(R::from_decimal(1, 5)) {
        e.times(v_next).minus(v)
    } else {
        e.over(v_ref).times(v_next).minus(v)
    }
}

impl<S, V, R> ExponentialTD<S, V, R> {
    /// A learner of `v_func` with reference state `start_state`, step size
    /// `alpha` and risk parameter `rho`.
    pub fn new(v_func: V, start_state: S, alpha: Parameter<R>, rho: Parameter<R>) -> (agent: Self)
        ensures
            agent == (ExponentialTD { v_func, start_state, alpha, rho }),
    {
        ExponentialTD { v_func, start_state, alpha, rho }
    }
}

impl<S, V: VFunction<S, R>, R: Scalar> ExponentialTD<S, V, R> {
    /// The error of `t`, from the values of the state left, the state
    /// reached and the reference state. It fails exactly when one of the
    /// three evaluations does.
    pub open spec fn spec_error<A>(&self, t: Transition<S, A, R>) -> Result<R, LearnerError> {
        match (
            spec_state_value(&self.v_func, t.from.spec_state()),
            spec_state_value(&self.v_func, t.to.spec_state()),
            spec_state_value(&self.v_func, self.start_state),
        ) {
            (Ok(v), Ok(v_next), Ok(v_ref)) => Ok(
                spec_exponential_error(self.rho.value, t.reward, v, v_next, v_ref),
            ),
            (Err(e), _, _) => Err(LearnerError::Approximation(e)),
            (_, Err(e), _) => Err(LearnerError::Approximation(e)),
            (_, _, Err(e)) => Err(LearnerError::Approximation(e)),
        }
    }

    /// The learner after handling `t`: when the error can be computed, the
    /// value function receives the update `alpha * error` at the features
    /// of the state left; otherwise nothing changes and the failure is
    /// reported.
    pub open spec fn spec_handle_transition<A>(self, t: Transition<S, A, R>) -> (
        Self,
        Option<LearnerError>,
    ) {
        match self.spec_error(t) {
            Err(e) => (self, Some(e)),
            Ok(error) => (
                ExponentialTD {
                    v_func: self.v_func.spec_update(
                        self.v_func.spec_embed(t.from.spec_state()),
                        self.alpha.value.spec_times(error),
                    ),
                    start_state: self.start_state,
                    alpha: self.alpha,
                    rho: self.rho,
                },
                None,
            ),
        }
    }

    /// Computes the error of `t`.
    pub fn error<A>(&self, t: &Transition<S, A, R>) -> (r: Result<R, LearnerError>)
        ensures
            r == self.spec_error(*t),
    {
        let v = match state_value(&self.v_func, t.from.state()) {
            Ok(v) => v,
            Err(e) => { return Err(LearnerError::Approximation(e)); },
        };
        let v_next = match state_value(&self.v_func, t.to.state()) {
            Ok(v) => v,
            Err(e) => { return Err(LearnerError::Approximation(e)); },
        };
        let v_ref = match state_value(&self.v_func, &self.start_state) {
            Ok(v) => v,
            Err(e) => { return Err(LearnerError::Approximation(e)); },
        };
        Ok(exponential_error(self.rho.value(), t.reward, v, v_next, v_ref))
    }
}

impl<S, V, R: Scalar> Algorithm for ExponentialTD<S, V, R> {
    /// Both parameters advance by exactly one schedule tick; nothing else
    /// changes.
    open spec fn spec_ends_episode(self, after: Self) -> bool {
        after == (ExponentialTD {
            v_func: self.v_func,
            start_state: self.start_state,
            alpha: self.alpha.spec_step(),
            rho: self.rho.spec_step(),
        })
    }

    fn handle_terminal(&mut self) {
        self.alpha = self.alpha.step();
        self.rho = self.rho.step();
    }
}

impl<S, A, V: VFunction<S, R>, R: Scalar> OnlineLearner<S, A, R> for ExponentialTD<S, V, R> {
    /// The step is a function of the learner and the transition.
    open spec fn spec_handles(
        self,
        t: Transition<S, A, R>,
        after: Self,
        failure: Option<LearnerError>,
    ) -> bool {
        (after, failure) == self.spec_handle_transition(t)
    }

    fn handle_transition(&mut self, t: &Transition<S, A, R>) -> (r: Result<(), LearnerError>) {
        let error = match self.error(t) {
            Ok(v) => v,
            Err(e) => { return Err(e); },
        };
        let phi = self.v_func.embed(t.from.state());
        let _ = self.v_func.update(&phi, self.alpha.times(error));
        Ok(())
    }
}

impl<S, V: VFunction<S, R>, R: Scalar> ValuePredictor<S, R> for ExponentialTD<S, V, R> {
    open spec fn spec_predict_v(&self, s: S) -> Result<R, LearnerError> {
        spec_lift(spec_state_value(&self.v_func, s))
    }

    fn predict_v(&self, s: &S) -> (r: Result<R, LearnerError>) {
        lift(state_value(&self.v_func, s))
    }
}

impl<S, A, V: VFunction<S, R>, R: Scalar> ActionValuePredictor<S, A, R> for ExponentialTD<
    S,
    V,
    R,
> {
    /// Without action values of its own, the predictor values every action
    /// as the state.
    open spec fn spec_predict_qsa(&self, s: S, a: A) -> Result<R, LearnerError> {
        self.spec_predict_v(s)
    }

    /// A vector of action values is not on offer.
    open spec fn spec_predict_qs(&self, s: S) -> Result<Seq<R>, LearnerError> {
        Err(LearnerError::UnsupportedCapability)
    }

    fn predict_qsa(&self, s: &S, a: A) -> (r: Result<R, LearnerError>) {
        self.predict_v(s)
    }

    fn predict_qs(&self, s: &S) -> (r: Result<Vec<R>, LearnerError>) {
        Err(LearnerError::UnsupportedCapability)
    }
}

impl<S, V: Parameterised<R>, R: Scalar> Parameterised<R> for ExponentialTD<S, V, R> {
    open spec fn spec_weights(&self) -> Seq<Seq<R>> {
        self.v_func.spec_weights()
    }

    open spec fn spec_weights_dim(&self) -> (nat, nat) {
        self.v_func.spec_weights_dim()
    }

    open spec fn spec_with_weights(self, w: Seq<Seq<R>>) -> Self {
        ExponentialTD {
            v_func: self.v_func.spec_with_weights(w),
            start_state: self.start_state,
            alpha: self.alpha,
            rho: self.rho,
        }
    }

    fn weights(&self) -> (w: Vec<Vec<R>>) {
        self.v_func.weights()
    }

    fn weights_dim(&self) -> (d: (usize, usize)) {
        self.v_func.weights_dim()
    }

    fn set_weights(&mut self, w: Vec<Vec<R>>) {
        self.v_func.set_weights(w);
    }
}

} // verus!

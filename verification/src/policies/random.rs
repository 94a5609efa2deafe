//! The policy that ignores the state and draws actions uniformly.
use crate::algorithms::{Algorithm, LearnerError};
use crate::policies::{FinitePolicy, Policy};
use crate::sampling::{thread_generator, uniform_below};
use crate::scalar::Scalar;
use vstd::prelude::*;

verus! {

/// A uniform policy over the actions `0..n_actions`.
pub struct Random {
    pub n_actions: usize,
    pub rng: rand::rngs::ThreadRng,
}

/// The probability `1 / n` of each of `n` actions.
pub open spec fn spec_uniform_probability<R: Scalar>(n: usize) -> R {
    R::spec_one().spec_over(R::spec_from_count(n))
}

/// What a draw from `before` may give: the number of actions stays; with
/// no action the result is `NoAction`, and otherwise it is one of the
/// actions `0..n_actions`. Nothing is said of the generator afterwards.
pub open spec fn spec_uniform_draw(
    before: Random,
    after: Random,
    result: Result<usize, LearnerError>,
) -> bool {
    &&& after.n_actions == before.n_actions
    &&& before.n_actions == 0 ==> result == Err::<usize, LearnerError>(LearnerError::NoAction)
    &&& before.n_actions > 0 ==> result is Ok && result->Ok_0 < before.n_actions
}

impl Random {
    /// A uniform policy over `n_actions` actions, drawing from the
    /// generator of the current thread.
    pub fn new(n_actions: usize) -> (pi: Self)
        ensures
            pi.n_actions == n_actions,
    {
        Random { n_actions, rng: thread_generator() }
    }

    /// Draws an action: any of `0..n_actions`, or `NoAction` when there is
    /// none to draw.
    pub fn draw(&mut self) -> (r: Result<usize, LearnerError>)
        ensures
            spec_uniform_draw(*old(self), *final(self), r),
    {
        if self.n_actions == 0 {
            Err(LearnerError::NoAction)
        } else {
            Ok(uniform_below(&mut self.rng, self.n_actions))
        }
    }
}

impl<S, R: Scalar> Policy<S, R> for Random {
    type Action = usize;

    /// Every action has probability `1 / n_actions`, whatever the state.
    open spec fn spec_probability(&self, s: S, a: usize) -> Result<R, LearnerError> {
        Ok(spec_uniform_probability::<R>(self.n_actions))
    }

    /// A draw succeeds exactly when there is an action, gives one of the
    /// actions `0..n_actions` and keeps their number, whatever the state.
    open spec fn spec_draws(self, s: S, after: Self, result: Result<usize, LearnerError>) -> bool {
        spec_uniform_draw(self, after, result)
    }

    /// All actions are equally probable, so what holds of a draw holds of a
    /// most probable action.
    open spec fn spec_picks(self, s: S, after: Self, result: Result<usize, LearnerError>) -> bool {
        spec_uniform_draw(self, after, result)
    }

    /// Sampling is one `draw`.
    fn sample(&mut self, s: &S) -> (r: Result<usize, LearnerError>) {
        self.draw()
    }

    /// All actions are equally probable, so any draw is a most probable
    /// action.
    fn mpa(&mut self, s: &S) -> (r: Result<usize, LearnerError>) {
        self.draw()
    }

    fn probability(&self, s: &S, a: usize) -> (r: Result<R, LearnerError>) {
        Ok(R::one().over(R::from_count(self.n_actions)))
    }
}

impl<S, R: Scalar> FinitePolicy<S, R> for Random {
    open spec fn spec_n_actions(&self) -> nat {
        self.n_actions as nat
    }

    open spec fn spec_probabilities(&self, s: S) -> Result<Seq<R>, LearnerError> {
        Ok(Seq::new(self.n_actions as nat, |i: int| spec_uniform_probability::<R>(self.n_actions)))
    }

    fn n_actions(&self) -> (n: usize) {
        self.n_actions
    }

    fn probabilities(&self, s: &S) -> (r: Result<Vec<R>, LearnerError>) {
        let p: R = R::one().over(R::from_count(self.n_actions));
        let mut ps: Vec<R> = Vec::new();
        let mut i: usize = 0;
        while i < self.n_actions
            invariant
                i <= self.n_actions,
                p == spec_uniform_probability::<R>(self.n_actions),
                ps@.len() == i,
                forall|k: int| 0 <= k < i ==> ps@[k] == p,
            decreases self.n_actions - i,
        {
            ps.push(p);
            i = i + 1;
        }
        Ok(ps)
    }
}

impl Algorithm for Random {
    /// There is nothing to anneal: the number of actions stays, and the
    /// generator is not touched.
    open spec fn spec_ends_episode(self, after: Self) -> bool {
        after == self
    }

    fn handle_terminal(&mut self) {
    }
}

} // verus!

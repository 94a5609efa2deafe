//! Observations and transitions emitted by a problem domain.
use crate::scalar::Scalar;
use vstd::prelude::*;

verus! {

/// What a domain reports about its state after a step.
#[derive(Clone, Copy, Debug)]
pub enum Observation<S> {
    /// Fully observed state of the environment.
    Full(S),
    /// Partially observed state of the environment.
    Partial(S),
    /// Terminal state of the environment.
    Terminal(S),
}

impl<S> Observation<S> {
    /// The state carried by the observation, whatever its kind.
    pub open spec fn spec_state(self) -> S {
        match self {
            Observation::Full(s) => s,
            Observation::Partial(s) => s,
            Observation::Terminal(s) => s,
        }
    }

    /// Returns a reference to the state values of the observation.
    pub fn state(&self) -> (s: &S)
        ensures
            *s == self.spec_state(),
    {
        match self {
            Observation::Full(state) => state,
            Observation::Partial(state) => state,
            Observation::Terminal(state) => state,
        }
    }

    /// Returns true if the state was fully observed, otherwise false.
    pub fn is_full(&self) -> (b: bool)
        ensures
            b <==> *self is Full,
    {
        match self {
            Observation::Full(_) => true,
            _ => false,
        }
    }

    /// Returns true if the state was only partially observed, otherwise false.
    pub fn is_partial(&self) -> (b: bool)
        ensures
            b <==> *self is Partial,
    {
        match self {
            Observation::Partial(_) => true,
            _ => false,
        }
    }

    /// Returns true if the observation is the terminal state, otherwise false.
    pub fn is_terminal(&self) -> (b: bool)
        ensures
            b <==> *self is Terminal,
    {
        match self {
            Observation::Terminal(_) => true,
            _ => false,
        }
    }
}

/// One environment step: the state left, the action taken, the reward
/// received and the state reached.
#[derive(Clone, Copy, Debug)]
pub struct Transition<S, A, R> {
    /// State transitioned from.
    pub from: Observation<S>,
    /// Action taken to initiate the transition.
    pub action: A,
    /// Reward obtained from the transition.
    pub reward: R,
    /// State transitioned to.
    pub to: Observation<S>,
}

impl<S, A, R> Transition<S, A, R> {
    /// Whether the transition ends in a terminal state.
    pub open spec fn spec_terminated(self) -> bool {
        self.to is Terminal
    }

    /// Returns references to the states left and reached.
    pub fn states(&self) -> (pair: (&S, &S))
        ensures
            *pair.0 == self.from.spec_state(),
            *pair.1 == self.to.spec_state(),
    {
        (self.from.state(), self.to.state())
    }

    /// Applies `f` to the state left and to the state reached.
    pub fn map_states<O, F: Fn(&S) -> O>(&self, f: F) -> (pair: (O, O))
        requires
            call_requires(f, (&self.from.spec_state(),)),
            call_requires(f, (&self.to.spec_state(),)),
        ensures
            call_ensures(f, (&self.from.spec_state(),), pair.0),
            call_ensures(f, (&self.to.spec_state(),), pair.1),
    {
        let a = f(self.from.state());
        let b = f(self.to.state());
        (a, b)
    }

    /// Returns true if the transition ends in a terminal state.
    pub fn terminated(&self) -> (b: bool)
        ensures
            b == self.spec_terminated(),
    {
        self.to.is_terminal()
    }

    /// The same transition with `action` in place of the action taken.
    pub fn replace_action<T>(self, action: T) -> (t: Transition<S, T, R>)
        ensures
            t == (Transition { from: self.from, action, reward: self.reward, to: self.to }),
    {
        Transition { from: self.from, action, reward: self.reward, to: self.to }
    }

    /// The same transition without its action.
    pub fn drop_action(self) -> (t: Transition<S, (), R>)
        ensures
            t == (Transition { from: self.from, action: (), reward: self.reward, to: self.to }),
    {
        self.replace_action(())
    }

    /// The same transition with reward `r`.
    pub fn replace_reward(self, r: R) -> (t: Transition<S, A, R>)
        ensures
            t == (Transition { from: self.from, action: self.action, reward: r, to: self.to }),
    {
        Transition { from: self.from, action: self.action, reward: r, to: self.to }
    }
}

impl<S, A, R: Scalar> Transition<S, A, R> {
    /// The same transition with its reward negated.
    pub fn negate_reward(self) -> (t: Transition<S, A, R>)
        ensures
            t == (Transition {
                from: self.from,
                action: self.action,
                reward: self.reward.spec_negated(),
                to: self.to,
            }),
    {
        let reward = self.reward.negated();
        Transition { from: self.from, action: self.action, reward, to: self.to }
    }
}

/// A problem domain: the source of observations and transitions. How a
/// domain moves is its own business; the learners only ever read what it
/// emits.
pub trait Domain<R: Scalar> {
    /// What a state looks like.
    type State;

    /// What an action looks like.
    type Action;

    /// Emits an observation of the current state of the environment.
    fn emit(&self) -> Observation<Self::State>;

    /// Transitions the environment forward a single step given an action.
    fn step(&mut self, a: Self::Action) -> Transition<Self::State, Self::Action, R>;

    /// Returns true if the current state is terminal.
    fn is_terminal(&self) -> bool;

    /// Computes the reward associated with a transition from one state to
    /// another.
    fn reward(&self, from: &Observation<Self::State>, to: &Observation<Self::State>) -> R;
}

/// Replacing the action or the reward never changes whether a transition
/// is terminal, nor the states it connects.
pub proof fn lemma_replacements_preserve_endpoints<S, A, T, R>(
    t: Transition<S, A, R>,
    action: T,
    reward: R,
)
    ensures
        (Transition { from: t.from, action, reward: t.reward, to: t.to }).spec_terminated()
            == t.spec_terminated(),
        (Transition { from: t.from, action: t.action, reward, to: t.to }).spec_terminated()
            == t.spec_terminated(),
{
}

} // verus!

//! Hyperparameters that anneal once per episode.
use crate::scalar::Scalar;
use vstd::prelude::*;

verus! {

/// How a parameter's value moves at each episode boundary.
#[derive(Clone, Copy, Debug)]
pub enum Schedule<R> {
    /// The value never changes.
    Constant,
    /// The value is multiplied by `decay`, and never falls below `floor`.
    Exponential { decay: R, floor: R },
    /// The value is lowered by `decrement`, and never falls below `floor`.
    Linear { decrement: R, floor: R },
}

/// `x`, unless it is less than `floor`, in which case `floor`.
pub open spec fn spec_floored<R: Scalar>(x: R, floor: R) -> R {
    if x.spec_less(floor) {
        floor
    } else {
        x
    }
}

/// `x`, unless it is less than `floor`, in which case `floor`.
pub fn floored<R: Scalar>(x: R, floor: R) -> (r: R)
    ensures
        r == spec_floored(x, floor),
{
    if x.less(floor) {
        floor
    } else {
        x
    }
}

/// A scalar hyperparameter together with its annealing schedule.
#[derive(Clone, Copy, Debug)]
pub struct Parameter<R> {
    pub value: R,
    pub schedule: Schedule<R>,
}

impl<R: Scalar> Parameter<R> {
    /// The value one schedule tick after `self`.
    pub open spec fn spec_next_value(self) -> R {
        match self.schedule {
            Schedule::Constant => self.value,
            Schedule::Exponential { decay, floor } => spec_floored(
                self.value.spec_times(decay),
                floor,
            ),
            Schedule::Linear { decrement, floor } => spec_floored(
                self.value.spec_minus(decrement),
                floor,
            ),
        }
    }

    /// The parameter one schedule tick after `self`: the value advances, the
    /// schedule stays.
    pub open spec fn spec_step(self) -> Self {
        Parameter { value: self.spec_next_value(), schedule: self.schedule }
    }

    /// The parameter after `n` schedule ticks.
    pub open spec fn spec_step_n(self, n: nat) -> Self
        decreases n,
    {
        if n == 0 {
            self
        } else {
            self.spec_step_n((n - 1) as nat).spec_step()
        }
    }

    /// A parameter that keeps `value` forever.
    pub fn fixed(value: R) -> (p: Self)
        ensures
            p == (Parameter { value, schedule: Schedule::Constant }),
    {
        Parameter { value, schedule: Schedule::Constant }
    }

    /// A parameter that starts at `init` and decays geometrically to `floor`.
    pub fn exponential(init: R, floor: R, decay: R) -> (p: Self)
        ensures
            p == (Parameter { value: init, schedule: Schedule::Exponential { decay, floor } }),
    {
        Parameter { value: init, schedule: Schedule::Exponential { decay, floor } }
    }

    /// A parameter that starts at `init` and falls by `decrement` per episode
    /// down to `floor`.
    pub fn linear(init: R, floor: R, decrement: R) -> (p: Self)
        ensures
            p == (Parameter { value: init, schedule: Schedule::Linear { decrement, floor } }),
    {
        Parameter { value: init, schedule: Schedule::Linear { decrement, floor } }
    }

    /// The current value.
    pub fn value(&self) -> (v: R)
        ensures
            v == self.value,
    {
        self.value
    }

    /// A constant parameter frozen at the current value.
    pub fn to_fixed(&self) -> (p: Self)
        ensures
            p == (Parameter { value: self.value, schedule: Schedule::Constant }),
    {
        Parameter { value: self.value, schedule: Schedule::Constant }
    }

    /// Advances the parameter by exactly one schedule tick.
    pub fn step(self) -> (p: Self)
        ensures
            p == self.spec_step(),
    {
        let value = match self.schedule {
            Schedule::Constant => self.value,
            Schedule::Exponential { decay, floor } => floored(self.value.times(decay), floor),
            Schedule::Linear { decrement, floor } => floored(self.value.minus(decrement), floor),
        };
        Parameter { value, schedule: self.schedule }
    }

    /// The product of the current value and `rhs`.
    pub fn times(&self, rhs: R) -> (r: R)
        ensures
            r == self.value.spec_times(rhs),
    {
        self.value.times(rhs)
    }

    /// The sum of the current value and `rhs`.
    pub fn plus(&self, rhs: R) -> (r: R)
        ensures
            r == self.value.spec_plus(rhs),
    {
        self.value.plus(rhs)
    }
}

impl<R> From<R> for Parameter<R> {
    /// A bare value is a parameter that keeps it forever.
    fn from(value: R) -> (p: Self) {
        Parameter { value, schedule: Schedule::Constant }
    }
}

impl<R> vstd::std_specs::convert::FromSpecImpl<R> for Parameter<R> {
    open spec fn obeys_from_spec() -> bool {
        true
    }

    open spec fn from_spec(value: R) -> Self {
        Parameter { value, schedule: Schedule::Constant }
    }
}

/// A decaying parameter never ends a step below its floor: its new value is
/// the floor itself or a value that is not less than the floor.
pub proof fn lemma_step_respects_floor<R: Scalar>(p: Parameter<R>)
    ensures
        match p.schedule {
            Schedule::Constant => p.spec_step().value == p.value,
            Schedule::Exponential { decay, floor } => p.spec_step().value == floor
                || !p.spec_step().value.spec_less(floor),
            Schedule::Linear { decrement, floor } => p.spec_step().value == floor
                || !p.spec_step().value.spec_less(floor),
        },
{
}

/// A step changes the value only; the schedule is carried over unchanged.
pub proof fn lemma_step_keeps_schedule<R: Scalar>(p: Parameter<R>, n: nat)
    ensures
        p.spec_step_n(n).schedule == p.schedule,
    decreases n,
{
    if n > 0 {
        lemma_step_keeps_schedule(p, (n - 1) as nat);
    }
}

} // verus!

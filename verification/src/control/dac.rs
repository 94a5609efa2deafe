//! Deterministic actor-critic.
use crate::control::tdac::TDAC;
use crate::parameter::Parameter;
use crate::policies::dirac::Dirac;
use crate::prediction::td::TD;
use vstd::prelude::*;

verus! {

/// The actor-critic whose critic learns state values by one-step
/// temporal differences and whose actor plays the value of an approximator:
/// the actor is updated with the critic's error, which is `reward - V(s)` on
/// a terminal step and `reward + gamma * V(s') - V(s)` otherwise.
pub type DAC<V, F, R> = TDAC<TD<V, R>, Dirac<F>, R>;

/// A deterministic actor-critic of the value function `v_func` and the
/// actor `actor`. The critic learns with step size `beta`, the actor with
/// step size `alpha`, and both discount with `gamma`.
pub fn dac<V, F, R: Copy>(
    v_func: V,
    actor: F,
    alpha: Parameter<R>,
    beta: Parameter<R>,
    gamma: Parameter<R>,
) -> (agent: DAC<V, F, R>)
    ensures
        agent == (TDAC {
            critic: TD { v_func, alpha: beta, gamma },
            policy: Dirac { fa: actor },
            alpha,
            gamma,
        }),
{
    TDAC::new(TD::new(v_func, beta, gamma), Dirac::new(actor), alpha, gamma)
}

} // verus!

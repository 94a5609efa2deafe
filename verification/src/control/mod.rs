//! Control algorithms: they learn values or policies and choose actions.
pub mod baseline_reinforce;
pub mod dac;
pub mod greedy_gq;
pub mod pal;
pub mod q_learning;
pub mod tdac;
pub mod to_sarsa_lambda;

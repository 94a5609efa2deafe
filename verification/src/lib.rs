//! Online reinforcement-learning algorithms with machine-checked contracts.
//!
//! The algorithms are written over an abstract scalar so that every contract
//! states exactly which arithmetic expression is computed and where it is
//! applied, independently of the number representation chosen by the caller.

pub mod algorithms;
pub mod control;
pub mod domains;
pub mod fa;
pub mod parameter;
pub mod policies;
pub mod prediction;
pub mod sampling;
pub mod scalar;
pub mod trace;
pub mod utils;
pub mod vector;

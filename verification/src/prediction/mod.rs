//! Prediction algorithms: they estimate values of a policy that others
//! choose.
pub mod td;
pub mod td_exp;
pub mod td_var;

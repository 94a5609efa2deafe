//! Eligibility traces.
use crate::parameter::Parameter;
use crate::scalar::Scalar;
use crate::vector::{
    copied, dot, scale, spec_dot, spec_dot_prefix, spec_scale, spec_sum, spec_zeros, sum, zeros,
};
use vstd::prelude::*;

verus! {

/// The factor `1 - alpha * rate * (z . phi)` by which the true-online
/// discipline scales the incoming features.
pub open spec fn spec_true_online_factor<R: Scalar>(
    alpha: R,
    rate: R,
    z: Seq<R>,
    phi: Seq<R>,
) -> R {
    R::spec_one().spec_minus(alpha.spec_times(rate).spec_times(spec_dot(z, phi)))
}

/// The accumulating update `rate * z + phi`.
pub open spec fn spec_accumulated<R: Scalar>(rate: R, z: Seq<R>, phi: Seq<R>) -> Seq<R> {
    spec_sum(spec_scale(rate, z), phi)
}

/// The true-online update `rate * z + (1 - alpha * rate * (z . phi)) * phi`.
pub open spec fn spec_true_online<R: Scalar>(alpha: R, rate: R, z: Seq<R>, phi: Seq<R>) -> Seq<
    R,
> {
    spec_sum(spec_scale(rate, z), spec_scale(spec_true_online_factor(alpha, rate, z, phi), phi))
}

/// A decaying memory of recently visited features, owned by one algorithm.
pub struct Trace<R> {
    /// The trace-decay parameter.
    pub lambda: Parameter<R>,
    /// One accumulator per feature.
    pub eligibility: Vec<R>,
}

impl<R: Scalar> View for Trace<R> {
    type V = Seq<R>;

    open spec fn view(&self) -> Seq<R> {
        self.eligibility@
    }
}

impl<R: Scalar> Trace<R> {
    /// A cleared trace over `n_features` features.
    pub fn new(lambda: Parameter<R>, n_features: usize) -> (t: Self)
        ensures
            t.lambda == lambda,
            t@ == spec_zeros::<R>(n_features as nat),
    {
        Trace { lambda, eligibility: zeros(n_features) }
    }

    /// The number of features the trace covers.
    pub fn len(&self) -> (n: usize)
        ensures
            n == self@.len(),
    {
        self.eligibility.len()
    }

    /// A copy of the accumulators.
    pub fn get(&self) -> (z: Vec<R>)
        ensures
            z@ == self@,
    {
        copied(&self.eligibility)
    }

    /// Multiplies every accumulator by `rate`.
    pub fn decay(&mut self, rate: R)
        ensures
            final(self)@ == spec_scale(rate, old(self)@),
            final(self).lambda == old(self).lambda,
    {
        self.eligibility = scale(rate, &self.eligibility);
    }

    /// Adds `phi` to the accumulators.
    pub fn update(&mut self, phi: &Vec<R>)
        requires
            phi@.len() == old(self)@.len(),
        ensures
            final(self)@ == spec_sum(old(self)@, phi@),
            final(self).lambda == old(self).lambda,
    {
        self.eligibility = sum(&self.eligibility, phi);
    }

    /// The accumulating discipline: `z <- rate * z + phi`.
    pub fn accumulate(&mut self, rate: R, phi: &Vec<R>)
        requires
            phi@.len() == old(self)@.len(),
        ensures
            final(self)@ == spec_accumulated(rate, old(self)@, phi@),
            final(self).lambda == old(self).lambda,
    {
        self.decay(rate);
        self.update(phi);
    }

    /// The true-online discipline:
    /// `z <- rate * z + (1 - alpha * rate * (z . phi)) * phi`,
    /// where the inner product is taken with the trace before it decays.
    pub fn update_true_online(&mut self, alpha: R, rate: R, phi: &Vec<R>)
        requires
            phi@.len() == old(self)@.len(),
        ensures
            final(self)@ == spec_true_online(alpha, rate, old(self)@, phi@),
            final(self).lambda == old(self).lambda,
    {
        let factor = R::one().minus(alpha.times(rate).times(dot(&self.eligibility, phi)));
        let correction = scale(factor, phi);
        self.decay(rate);
        self.update(&correction);
    }

    /// Clears the trace to the zero vector, keeping its length.
    pub fn reset(&mut self)
        ensures
            final(self)@ == spec_zeros::<R>(old(self)@.len()),
            final(self).lambda == old(self).lambda,
    {
        let n = self.eligibility.len();
        self.eligibility = zeros(n);
    }

    /// Advances the decay parameter by one schedule tick and clears the
    /// trace, as every episode boundary requires.
    pub fn handle_terminal(&mut self)
        ensures
            final(self).lambda == old(self).lambda.spec_step(),
            final(self)@ == spec_zeros::<R>(old(self)@.len()),
    {
        self.lambda = self.lambda.step();
        self.reset();
    }
}

/// Entry by entry, the true-online update is
/// `rate * z[i] + (1 - alpha * rate * (z . phi)) * phi[i]`.
pub proof fn lemma_true_online_entries<R: Scalar>(alpha: R, rate: R, z: Seq<R>, phi: Seq<R>, i: int)
    requires
        z.len() == phi.len(),
        0 <= i < z.len(),
    ensures
        spec_true_online(alpha, rate, z, phi).len() == z.len(),
        spec_true_online(alpha, rate, z, phi)[i] == rate.spec_times(z[i]).spec_plus(
            R::spec_one().spec_minus(alpha.spec_times(rate).spec_times(spec_dot(z, phi))).spec_times(
                phi[i],
            ),
        ),
{
}

/// The identities of zero and one that the first step of an episode rests
/// on, for the decay rate `rate`, the step size `alpha` and the features
/// `phi`: zero annihilates `rate`, `alpha * rate` and every feature, adding
/// zero to zero or to a feature changes nothing, one less zero is one, and
/// one times a feature is the feature.
pub open spec fn first_step_identities<R: Scalar>(alpha: R, rate: R, phi: Seq<R>) -> bool {
    &&& rate.spec_times(R::spec_zero()) == R::spec_zero()
    &&& alpha.spec_times(rate).spec_times(R::spec_zero()) == R::spec_zero()
    &&& R::spec_zero().spec_plus(R::spec_zero()) == R::spec_zero()
    &&& R::spec_one().spec_minus(R::spec_zero()) == R::spec_one()
    &&& forall|i: int|
        0 <= i < phi.len() ==> {
            &&& R::spec_zero().spec_times(#[trigger] phi[i]) == R::spec_zero()
            &&& R::spec_zero().spec_plus(phi[i]) == phi[i]
            &&& R::spec_one().spec_times(phi[i]) == phi[i]
        }
}

/// The inner product of the zero vector with any features is zero, given
/// the identities of zero.
pub proof fn lemma_dot_with_zeros<R: Scalar>(alpha: R, rate: R, phi: Seq<R>, n: nat)
    requires
        first_step_identities(alpha, rate, phi),
        n <= phi.len(),
    ensures
        spec_dot_prefix(spec_zeros::<R>(phi.len()), phi, n) == R::spec_zero(),
    decreases n,
{
    if n > 0 {
        lemma_dot_with_zeros(alpha, rate, phi, (n - 1) as nat);
    }
}

/// The first step of an episode. By direct substitution of the zero vector
/// into the true-online update, a cleared trace becomes the features
/// themselves, whatever the step size and the decay rate, wherever zero
/// and one behave as they do in exact arithmetic.
pub proof fn lemma_first_step_trace_is_features<R: Scalar>(alpha: R, rate: R, phi: Seq<R>)
    requires
        first_step_identities(alpha, rate, phi),
    ensures
        spec_true_online(alpha, rate, spec_zeros::<R>(phi.len()), phi) == phi,
{
    let z = spec_zeros::<R>(phi.len());
    lemma_dot_with_zeros(alpha, rate, phi, phi.len());
    assert(spec_true_online_factor(alpha, rate, z, phi) == R::spec_one());
    assert(spec_true_online(alpha, rate, z, phi) =~= phi);
}

} // verus!

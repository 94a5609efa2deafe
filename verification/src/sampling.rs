//! Random draws. The generator is the thread-local generator of the `rand`
//! crate; nothing is assumed about which value a draw returns beyond the
//! range that the crate documents.
use vstd::prelude::*;

verus! {

/// The thread-local random number generator of the `rand` crate. Its state
/// is opaque to the verifier.
#[verifier::external_type_specification]
#[verifier::external_body]
pub struct ExThreadRng(rand::rngs::ThreadRng);

/// Calls `rand::thread_rng`, which hands out a handle to the generator of
/// the current thread. Nothing is claimed about the handle.
#[verifier::external_body]
pub(crate) fn thread_generator() -> rand::rngs::ThreadRng {
    rand::thread_rng()
}

/// Calls `rand::seq::SliceRandom::choose` on `items`. As the crate's source
/// shows, the call returns `None` exactly when the slice is empty and
/// otherwise one of the items of the slice, at an index drawn with
/// `gen_range(0, len)`; which one is not determined.
#[verifier::external_body]
pub(crate) fn choose_one(rng: &mut rand::rngs::ThreadRng, items: &Vec<usize>) -> (choice: Option<
    usize,
>)
    ensures
        items@.len() == 0 ==> choice is None,
        items@.len() > 0 ==> choice is Some && items@.contains(choice->0),
{
    rand::seq::SliceRandom::choose(items.as_slice(), rng).copied()
}

/// Builds `rand::distributions::Uniform::new(0, n)` and samples it once.
/// The distribution covers the half-open range `[0, n)`; building it panics
/// when the range is empty, which `requires` leaves out.
#[verifier::external_body]
pub(crate) fn uniform_below(rng: &mut rand::rngs::ThreadRng, n: usize) -> (draw: usize)
    requires
        0 < n,
    ensures
        draw < n,
{
    rand::distributions::Distribution::sample(&rand::distributions::Uniform::new(0usize, n), rng)
}

} // verus!

//! Random numbers, drawn from the `rand` crate. Nothing here is proved:
//! the contracts say what `rand` documents.

use rand::rngs::ThreadRng;
use rand::Rng;
use vstd::prelude::*;

verus! {

/// `rand::rngs::ThreadRng`, a handle to the generator of the current thread.
/// Nothing is known of what it holds.
#[verifier::external_type_specification]
#[verifier::external_body]
pub struct ExThreadRng(ThreadRng);

/// Calls `rand::thread_rng`, which hands out the generator of the current
/// thread. It takes no argument, and panics only where the system gives the
/// generator no seed. Nothing is claimed of the handle.
#[verifier::external_body]
pub(crate) fn thread_rng() -> (rng: ThreadRng) {
    rand::thread_rng()
}

/// Calls `rand::Rng::gen_range` with the half-open range `low..high`.
/// `rand` panics on an empty range, so `low < high` is asked for. Claimed of
/// the result is only that it lies in the range: which number comes is up
/// to chance, and two calls may differ.
#[verifier::external_body]
pub(crate) fn gen_range(rng: &mut ThreadRng, low: u32, high: u32) -> (drawn: u32)
    requires
        low < high,
    ensures
        low <= drawn < high,
{
    rng.gen_range(low..high)
}

} // verus!

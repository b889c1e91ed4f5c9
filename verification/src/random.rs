//! The random source of the spawner: the thread-local generator of `rand`.

use vstd::prelude::*;
use rand::rngs::ThreadRng;
use rand::Rng;

verus! {

/// Declares `rand::rngs::ThreadRng`, the handle to a thread's generator, as
/// an opaque type: verified code carries it from `thread_rng` to `gen_range`
/// and sees nothing inside it.
#[verifier::external_type_specification]
#[verifier::external_body]
pub struct ExThreadRng(ThreadRng);

/// Calls `rand::thread_rng`, which hands out a handle to the generator of the
/// current thread. Nothing is claimed of the handle. The generator is seeded
/// from the operating system on first use; `rand` panics if that fails.
#[verifier::external_body]
pub(crate) fn thread_rng() -> ThreadRng {
    rand::thread_rng()
}

/// Calls `Rng::gen_range` on the inclusive range `low..=high`. `rand` panics
/// on an empty range, which `requires` excludes. The contract claims no more
/// than that the number drawn lies in the range; nothing is said of its
/// distribution, and two calls may differ.
#[verifier::external_body]
pub(crate) fn gen_range(rng: &mut ThreadRng, low: i32, high: i32) -> (drawn: i32)
    requires
        low <= high,
    ensures
        low <= drawn <= high,
{
    rng.gen_range(low..=high)
}

} // verus!

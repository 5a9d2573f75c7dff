//! The source of random integers.

use rand::Rng;
use vstd::prelude::*;

verus! {

/// Draws an integer from the thread-local generator of the `rand` crate with
/// `Rng::gen_range(low..=high)`.
///
/// Trusted: the draw lies in the closed range it was asked for. `gen_range`
/// panics on an empty range, which the precondition excludes. Nothing is
/// claimed about which value comes back, nor about a host whose system
/// source cannot seed the generator.
#[verifier::external_body]
pub(crate) fn roll(low: usize, high: usize) -> (r: usize)
    requires
        low <= high,
    ensures
        low <= r <= high,
{
    rand::thread_rng().gen_range(low..=high)
}

} // verus!

//! The source of chance for the placement of apples.

use vstd::prelude::*;
use rand::Rng;

verus! {

/// Draws an index below `len`.
///
/// Calls `rand::Rng::gen_range` with the bounds 0 and `len` on the generator
/// that `rand::thread_rng` hands out. The contract is not proved. It claims
/// what `gen_range` documents: the value lies in the half-open range from the
/// lower bound to the upper bound. `gen_range` panics where the range is
/// empty, so `len` must be positive. The generator is seeded by the
/// operating system when a thread first asks for it.
#[verifier::external_body]
pub(crate) fn random_index(len: usize) -> (index: usize)
    requires
        len > 0,
    ensures
        index < len,
{
    rand::thread_rng().gen_range(0, len)
}

} // verus!

use vstd::prelude::*;
use rand::Rng;

verus! {

/// Relies on rand's `Rng::gen_range` on `thread_rng()`: it returns a
/// uniformly distributed value in the half-open range, and panics only when
/// the range is empty, which `0 < n` rules out. Nothing more than the bound
/// can be promised of a random draw.
#[verifier::external_body]
pub(crate) fn random_below(n: usize) -> (r: usize)
    requires
        0 < n,
    ensures
        r < n,
{
    rand::thread_rng().gen_range(0..n)
}

} // verus!

use rand::Rng;
use vstd::prelude::*;

verus! {

/// Relies on rand::thread_rng and Rng::gen_range over `0..bound`: a value drawn
/// uniformly below `bound`. The range must not be empty.
#[verifier::external_body]
pub(crate) fn random_below(bound: u64) -> (r: u64)
    requires
        bound > 0,
    ensures
        r < bound,
{
    rand::thread_rng().gen_range(0..bound)
}

} // verus!

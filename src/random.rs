use rand::Rng;
use vstd::prelude::*;

verus! {

/// Relies on `rand::Rng::gen_range` on `rand::thread_rng()`: a value drawn from
/// `[0, n)`. The call panics on an empty range, which `n > 0` rules out.
#[verifier::external_body]
pub(crate) fn roll_below(n: u32) -> (r: u32)
    requires
        n > 0,
    ensures
        r < n,
{
    rand::thread_rng().gen_range(0..n)
}

} // verus!

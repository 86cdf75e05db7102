//! The random source: the `rand` crate's standard generator.
//!
//! Nothing here is proved. Each function states what the trusted call is and
//! the little that holds of every outcome.

use rand::rngs::StdRng;
use rand::Rng;
use rand::SeedableRng;
use vstd::prelude::*;

verus! {

/// `rand::rngs::StdRng`, carried through as an opaque value.
#[verifier::external_type_specification]
#[verifier::external_body]
pub struct ExStdRng(StdRng);

/// `StdRng::from_entropy`: a generator seeded from the operating system.
/// Nothing is claimed of the generator. The call panics when the operating
/// system cannot supply entropy.
#[verifier::external_body]
pub(crate) fn entropy_rng() -> StdRng {
    StdRng::from_entropy()
}

/// `rand::random::<u32>()`: one value from the thread-local generator.
/// Any `u32` may come back.
#[verifier::external_body]
pub(crate) fn random_seed() -> u32 {
    rand::random::<u32>()
}

/// `Rng::gen_range(0..bound)` on a `StdRng`: the value drawn lies in the
/// half-open range, whatever the generator's state. `gen_range` panics on an
/// empty range, which `bound > 0` rules out.
#[verifier::external_body]
pub(crate) fn draw_below(rng: &mut StdRng, bound: u128) -> (ticket: u128)
    requires
        bound > 0,
    ensures
        ticket < bound,
{
    rng.gen_range(0..bound)
}

} // verus!

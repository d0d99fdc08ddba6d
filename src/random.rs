//! The pseudo-random source, rand's `StdRng`, and the draws the simulation makes from it.
use rand::rngs::StdRng;
use rand::Rng;
use vstd::prelude::*;

verus! {

/// rand's standard generator, carried through the simulation as an opaque value.
#[verifier::external_type_specification]
#[verifier::external_body]
pub struct ExStdRng(StdRng);

/// Relies on rand's `Rng::gen_range(0, n)` for `usize`: a value in `[0, n)`;
/// it panics when `n == 0`, which `requires` excludes.
#[verifier::external_body]
pub(crate) fn draw_index(rng: &mut StdRng, n: usize) -> (r: usize)
    requires
        n > 0,
    ensures
        r < n,
{
    rng.gen_range(0, n)
}

/// Relies on rand's `Rng::gen::<bool>()`: a fair coin; nothing is known of the outcome.
#[verifier::external_body]
pub(crate) fn draw_bool(rng: &mut StdRng) -> (r: bool) {
    rng.gen::<bool>()
}

/// Relies on rand's `Rng::gen::<u64>()`: a uniform 64-bit word; nothing is known of the outcome.
#[verifier::external_body]
pub(crate) fn draw_u64(rng: &mut StdRng) -> (r: u64) {
    rng.gen::<u64>()
}

} // verus!

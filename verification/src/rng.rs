//! The seeded pseudo-random source that every generator owns: a ChaCha
//! stream-cipher generator from the `rand_chacha` crate, reached through a
//! single bounded-draw wrapper, with the derived draws (inclusive ranges,
//! fixed-point Bernoulli trials) built on top of it as verified code.
//!
//! Probabilities are held in parts per million; [`PPM_SCALE`] is the whole.

use vstd::prelude::*;

verus! {

/// One million: probabilities are integers in `[0, PPM_SCALE]`, where
/// `PPM_SCALE` means certainty.
pub const PPM_SCALE: u64 = 1000000;

#[verifier::external_type_specification]
#[verifier::external_body]
pub struct ExChaCha8Rng(rand_chacha::ChaCha8Rng);

/// Relies on `rand_chacha::ChaCha8Rng` via `rand_core::SeedableRng::seed_from_u64`:
/// builds a generator whose stream is a fixed function of the seed.
#[verifier::external_body]
pub(crate) fn rng_from_seed(seed: u64) -> rand_chacha::ChaCha8Rng {
    <rand_chacha::ChaCha8Rng as rand_chacha::rand_core::SeedableRng>::seed_from_u64(seed)
}

/// Relies on `rand_chacha::ChaCha8Rng` via `rand_core::SeedableRng::from_entropy`:
/// builds a generator seeded from the operating system.
#[verifier::external_body]
pub(crate) fn rng_from_entropy() -> rand_chacha::ChaCha8Rng {
    <rand_chacha::ChaCha8Rng as rand_chacha::rand_core::SeedableRng>::from_entropy()
}

/// Relies on `rand::Rng::gen_range` over `0..bound`: returns a value below
/// `bound`, drawn uniformly; panics only on an empty range, which the
/// precondition rules out.
#[verifier::external_body]
pub(crate) fn rng_below(rng: &mut rand_chacha::ChaCha8Rng, bound: u64) -> (r: u64)
    requires
        bound >= 1,
    ensures
        r < bound,
{
    <rand_chacha::ChaCha8Rng as rand::Rng>::gen_range(rng, 0..bound)
}

/// One uniform draw from the inclusive range `[lo, hi]`.
pub fn draw_range(rng: &mut rand_chacha::ChaCha8Rng, lo: u64, hi: u64) -> (r: u64)
    requires
        lo <= hi,
        hi < u64::MAX,
    ensures
        lo <= r <= hi,
{
    lo + rng_below(rng, hi - lo + 1)
}

/// One Bernoulli trial at a probability of `rate_ppm` parts per million: a
/// rate of zero never succeeds, a rate of at least [`PPM_SCALE`] always does.
pub fn draw_bernoulli_ppm(rng: &mut rand_chacha::ChaCha8Rng, rate_ppm: u64) -> (r: bool)
    ensures
        rate_ppm == 0 ==> !r,
        rate_ppm >= PPM_SCALE ==> r,
{
    let v = rng_below(rng, PPM_SCALE);
    v < rate_ppm
}

/// One fair coin flip.
pub fn draw_coin(rng: &mut rand_chacha::ChaCha8Rng) -> bool {
    rng_below(rng, 2) == 1
}

} // verus!

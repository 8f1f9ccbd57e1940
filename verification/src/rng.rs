//! The deterministic random source of the engine.
//!
//! The engine draws from a `ChaCha8Rng` seeded with a 64-bit integer: a
//! counter-based keystream generator, chosen so that image corruption is
//! reproducible from a printed or stored seed. Both the seeding step and the
//! uniform integer sampler are fixed, platform-independent functions, so each
//! drawn value is named here as a function of the generator state and the
//! bounds alone; every contract of the engine is stated over those names.
//!
//! Probabilities are carried as integers in parts per million (see
//! [`PROB_SCALE`]): a Bernoulli draw with probability `p` is a uniform draw
//! over `0 .. PROB_SCALE` compared against `p`.

use vstd::prelude::*;

use rand::RngCore;
use rand::SeedableRng;
use rand::distributions::Distribution;
use rand_chacha::ChaCha8Rng;

verus! {

#[verifier::external_type_specification]
#[verifier::external_body]
pub struct ExChaCha8Rng(ChaCha8Rng);

/// One unit of probability: probabilities are expressed in parts per million,
/// so `PROB_SCALE` stands for certainty.
pub const PROB_SCALE: u32 = 1000000;

/// The abstract state of a generator: everything a `ChaCha8Rng` value holds.
pub uninterp spec fn rng_state(r: ChaCha8Rng) -> int;

/// The state of a generator freshly seeded from the given 64-bit seed.
pub uninterp spec fn seeded_state(seed: u64) -> int;

/// The value drawn by one uniform sample over `lo..=hi` from the given state.
pub uninterp spec fn uniform_value(state: int, lo: u64, hi: u64) -> u64;

/// The generator state after one uniform sample over `lo..=hi`.
pub uninterp spec fn uniform_next(state: int, lo: u64, hi: u64) -> int;

/// Relies on `rand::SeedableRng::seed_from_u64` for `rand_chacha::ChaCha8Rng`:
/// the seed is expanded by a fixed PCG32 step into the ChaCha key, so the
/// generator built from a given seed is the same on every platform and in
/// every process.
#[verifier::external_body]
pub(crate) fn rng_from_seed(seed: u64) -> (r: ChaCha8Rng)
    ensures
        rng_state(r) == seeded_state(seed),
{
    ChaCha8Rng::seed_from_u64(seed)
}

/// Relies on `rand::distributions::Uniform` over `u64` sampled from a
/// `ChaCha8Rng`: the widening-multiply rejection sampler consumes the portable
/// ChaCha keystream and nothing else, so the drawn value and the state advance
/// are fixed functions of the generator state and the bounds, and the value
/// lies in `lo..=hi`.
#[verifier::external_body]
pub(crate) fn uniform(rng: &mut ChaCha8Rng, lo: u64, hi: u64) -> (v: u64)
    requires
        lo <= hi,
    ensures
        lo <= v <= hi,
        v == uniform_value(rng_state(*old(rng)), lo, hi),
        rng_state(*final(rng)) == uniform_next(rng_state(*old(rng)), lo, hi),
{
    rand::distributions::Uniform::from(lo..=hi).sample(rng)
}

/// Relies on `rand::thread_rng` and `RngCore::next_u64` for a fresh seed;
/// the returned value can be anything.
#[verifier::external_body]
pub(crate) fn fresh_seed() -> u64 {
    rand::thread_rng().next_u64()
}

/// The outcome of a Bernoulli draw with probability `p_ppm` parts per million
/// from the given state.
pub open spec fn bernoulli_value(state: int, p_ppm: u32) -> bool {
    uniform_value(state, 0, (PROB_SCALE - 1) as u64) < p_ppm as u64
}

/// The generator state after a Bernoulli draw.
pub open spec fn bernoulli_next(state: int, p_ppm: u32) -> int {
    uniform_next(state, 0, (PROB_SCALE - 1) as u64)
}

/// A Bernoulli draw: true with probability `p_ppm` parts per million. A value
/// of `0` never fires; `PROB_SCALE` or more always fires.
pub(crate) fn bernoulli(rng: &mut ChaCha8Rng, p_ppm: u32) -> (b: bool)
    ensures
        b == bernoulli_value(rng_state(*old(rng)), p_ppm),
        rng_state(*final(rng)) == bernoulli_next(rng_state(*old(rng)), p_ppm),
{
    let v = uniform(rng, 0, (PROB_SCALE - 1) as u64);
    v < p_ppm as u64
}

} // verus!

//! Deterministic per-entity randomness: a seedable PCG generator stream,
//! plus the fixed-point jitter ("distortion") and the approximate normal
//! sampling the simulation derives from it.

use vstd::prelude::*;

verus! {

/// Relies on rand_pcg::Lcg64Xsh32 (the `pcg32` generator): an opaque,
/// seedable, deterministic random stream.
#[verifier::external_type_specification]
#[verifier::external_body]
pub struct ExPcg32(rand_pcg::Lcg64Xsh32);

/// Relies on rand::SeedableRng::seed_from_u64: builds a generator whose
/// stream is a function of the seed alone.
#[verifier::external_body]
pub(crate) fn rng_from_seed(seed: u64) -> rand_pcg::Pcg32 {
    <rand_pcg::Pcg32 as rand::SeedableRng>::seed_from_u64(seed)
}

/// Relies on rand::Rng::gen_range over a half-open integer range: it panics
/// on an empty range — ruled out here — and returns a value inside the
/// range.
#[verifier::external_body]
pub(crate) fn rng_range_u64(rng: &mut rand_pcg::Pcg32, lo: u64, hi: u64) -> (r: u64)
    requires
        lo < hi,
    ensures
        lo <= r < hi,
{
    rand::Rng::gen_range(rng, lo..hi)
}

/// Relies on rand::Rng::gen_ratio: it panics if the denominator is zero or
/// smaller than the numerator — ruled out here — and returns true with
/// probability `numerator / denominator`.
#[verifier::external_body]
pub(crate) fn rng_ratio(rng: &mut rand_pcg::Pcg32, numerator: u32, denominator: u32) -> (r: bool)
    requires
        0 < denominator,
        numerator <= denominator,
{
    rand::Rng::gen_ratio(rng, numerator, denominator)
}

/// Jitters `value` by a uniform factor of 90% to 110%: the distortion that
/// keeps identically configured bots out of step.
pub fn distort_u64(rng: &mut rand_pcg::Pcg32, value: u64) -> (r: u64)
    requires
        value <= 1_000_000_000,
    ensures
        value as int * 900 / 1000 <= r as int <= value as int * 1100 / 1000,
{
    let factor: u64 = rng_range_u64(rng, 900, 1101);
    proof {
        let v = value as int;
        let f = factor as int;
        assert(v * 900 / 1000 <= v * f / 1000 <= v * 1100 / 1000 && v * f
            <= 1_100_000_000_000int) by (nonlinear_arith)
            requires
                0 <= v <= 1_000_000_000,
                900 <= f <= 1100,
        ;
    }
    value * factor / 1000
}

/// A zero-mean sample with standard deviation `std`, from twelve uniform
/// draws: the sum of twelve uniform variables approximates a normal
/// distribution, and a sample never strays past six standard deviations.
pub fn sample_normal(rng: &mut rand_pcg::Pcg32, std: u64) -> (r: i64)
    requires
        std <= 1_000_000_000,
    ensures
        -6 * (std as int) <= r as int <= 6 * (std as int),
{
    let mut sum: u64 = 0;
    let mut i: usize = 0;
    while i < 12
        invariant
            i <= 12,
            sum <= 2000 * i,
        decreases 12 - i,
    {
        sum = sum + rng_range_u64(rng, 0, 2001);
        i = i + 1;
    }
    let centered: i64 = (sum as i64) - 12_000;
    proof {
        let c = centered as int;
        let s = std as int;
        assert(-6 * s <= c * s / 2000 <= 6 * s && -12_000_000_000_000int <= c * s
            <= 12_000_000_000_000int) by (nonlinear_arith)
            requires
                -12_000 <= c <= 12_000,
                0 <= s <= 1_000_000_000,
        ;
    }
    centered * (std as i64) / 2000
}

} // verus!

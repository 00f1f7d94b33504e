//! Fixed-point arithmetic helpers: integer square root, linear
//! interpolation over per-mille progress values, and angle arithmetic in
//! milliradians.

use vstd::prelude::*;

verus! {

/// Milliradians in a half turn (pi scaled by 1000).
pub const HALF_TURN_MRAD: i64 = 3142;

/// Milliradians in a full turn (two pi scaled by 1000).
pub const FULL_TURN_MRAD: i64 = 6284;

/// Holds when `r` is the integer square root of `x` rounded down.
pub open spec fn is_isqrt(x: int, r: int) -> bool {
    &&& 0 <= r
    &&& r * r <= x
    &&& x < (r + 1) * (r + 1)
}

/// The integer square root of `x` rounded down, as a mathematical value.
pub open spec fn spec_isqrt(x: int) -> int {
    choose|r: int| is_isqrt(x, r)
}

/// There is an integer square root for every non-negative argument.
pub proof fn lemma_isqrt_exists(x: int)
    requires
        0 <= x,
    ensures
        is_isqrt(x, spec_isqrt(x)),
    decreases x,
{
    if x == 0 {
        assert(is_isqrt(0, 0)) by (nonlinear_arith);
    } else {
        lemma_isqrt_exists(x - 1);
        let r = spec_isqrt(x - 1);
        if (r + 1) * (r + 1) <= x {
            assert(is_isqrt(x, r + 1)) by (nonlinear_arith)
                requires
                    is_isqrt(x - 1, r) && (r + 1) * (r + 1) <= x,
            ;
        } else {
            assert(is_isqrt(x, r)) by (nonlinear_arith)
                requires
                    is_isqrt(x - 1, r) && x < (r + 1) * (r + 1),
            ;
        }
    }
    let w = choose|w: int| is_isqrt(x, w);
    assert(is_isqrt(x, w));
}

/// Two integer square roots of the same argument are equal.
pub proof fn lemma_isqrt_unique(x: int, r1: int, r2: int)
    requires
        is_isqrt(x, r1),
        is_isqrt(x, r2),
    ensures
        r1 == r2,
{
    assert(r1 == r2) by (nonlinear_arith)
        requires
            is_isqrt(x, r1) && is_isqrt(x, r2),
    ;
}

/// A larger argument never has a smaller integer square root.
pub proof fn lemma_isqrt_monotone(x: int, y: int)
    requires
        0 <= x <= y,
    ensures
        spec_isqrt(x) <= spec_isqrt(y),
{
    lemma_isqrt_exists(x);
    lemma_isqrt_exists(y);
    assert(spec_isqrt(x) <= spec_isqrt(y)) by (nonlinear_arith)
        requires
            is_isqrt(x, spec_isqrt(x)) && is_isqrt(y, spec_isqrt(y)) && x <= y,
    ;
}

/// Integer square root rounded down, by bisection.
pub fn isqrt(x: u64) -> (r: u64)
    ensures
        r == spec_isqrt(x as int),
        is_isqrt(x as int, r as int),
{
    let mut lo: u64 = 0;
    let mut hi: u64 = 4294967296;
    // Invariant: the root lies in [lo, hi), i.e. lo * lo <= x < hi * hi.
    assert((4294967296 as int) * (4294967296 as int) > u64::MAX as int) by (nonlinear_arith);
    while hi - lo > 1
        invariant
            lo < hi <= 4294967296,
            (lo as int) * (lo as int) <= x as int,
            x < (hi as int) * (hi as int),
        decreases hi - lo,
    {
        let mid: u64 = lo + (hi - lo) / 2;
        proof {
            assert((mid as int) * (mid as int) <= u64::MAX as int) by (nonlinear_arith)
                requires
                    0 <= mid as int <= 4294967295int,
            ;
        }
        if mid * mid <= x {
            lo = mid;
        } else {
            hi = mid;
        }
    }
    proof {
        assert(is_isqrt(x as int, lo as int));
        lemma_isqrt_exists(x as int);
        lemma_isqrt_unique(x as int, lo as int, spec_isqrt(x as int));
    }
    lo
}

/// Integer square root rounded down, by bisection, for wide intermediates.
pub fn isqrt_u128(x: u128) -> (r: u128)
    ensures
        r == spec_isqrt(x as int),
        is_isqrt(x as int, r as int),
{
    let mut lo: u128 = 0;
    let mut hi: u128 = 18_446_744_073_709_551_616;
    proof {
        assert((18_446_744_073_709_551_616 as int) * (18_446_744_073_709_551_616 as int)
            > u128::MAX as int) by (nonlinear_arith);
    }
    while hi - lo > 1
        invariant
            lo < hi <= 18_446_744_073_709_551_616,
            (lo as int) * (lo as int) <= x as int,
            x < (hi as int) * (hi as int),
        decreases hi - lo,
    {
        let mid: u128 = lo + (hi - lo) / 2;
        proof {
            assert((mid as int) * (mid as int) <= u128::MAX as int) by (nonlinear_arith)
                requires
                    0 <= mid as int <= 18_446_744_073_709_551_615int,
            ;
        }
        if mid * mid <= x {
            lo = mid;
        } else {
            hi = mid;
        }
    }
    proof {
        assert(is_isqrt(x as int, lo as int));
        lemma_isqrt_exists(x as int);
        lemma_isqrt_unique(x as int, lo as int, spec_isqrt(x as int));
    }
    lo
}

/// The value `a + (b - a) * progress / 1000`: linear interpolation from `a`
/// to `b` as `progress` sweeps the per-mille range `[0, 1000]`, rounded
/// toward `a`.
pub open spec fn spec_lerp(a: int, b: int, progress: int) -> int {
    if b >= a {
        a + ((b - a) * progress) / 1000
    } else {
        a - ((a - b) * progress) / 1000
    }
}

/// Interpolation never leaves the closed interval of its endpoints, and the
/// per-mille extremes reproduce the endpoints exactly.
pub proof fn lemma_lerp_bounds(a: int, b: int, progress: int)
    requires
        0 <= progress <= 1000,
    ensures
        a <= b ==> a <= spec_lerp(a, b, progress) <= b,
        b <= a ==> b <= spec_lerp(a, b, progress) <= a,
        spec_lerp(a, b, 0) == a,
        spec_lerp(a, b, 1000) == b,
{
    if b >= a {
        assert(0 <= ((b - a) * progress) / 1000 <= b - a) by (nonlinear_arith)
            requires
                0 <= progress <= 1000 && b >= a,
        ;
        assert(((b - a) * 0) / 1000 == 0) by (nonlinear_arith);
        assert(((b - a) * 1000) / 1000 == b - a) by (nonlinear_arith);
    } else {
        assert(0 <= ((a - b) * progress) / 1000 <= a - b) by (nonlinear_arith)
            requires
                0 <= progress <= 1000 && a > b,
        ;
        assert(((a - b) * 0) / 1000 == 0) by (nonlinear_arith);
        assert(((a - b) * 1000) / 1000 == a - b) by (nonlinear_arith);
    }
}

/// Linear interpolation between two fixed-point scalars over a per-mille
/// progress value.
pub fn lerp_i64(a: i64, b: i64, progress: u32) -> (r: i64)
    requires
        progress <= 1000,
        -1_000_000_000_000 <= a <= 1_000_000_000_000,
        -1_000_000_000_000 <= b <= 1_000_000_000_000,
    ensures
        r == spec_lerp(a as int, b as int, progress as int),
{
    if b >= a {
        let diff: i64 = b - a;
        proof {
            assert(0 <= (diff as int) * (progress as int) <= 2_000_000_000_000_000int)
                by (nonlinear_arith)
                requires
                    0 <= diff as int <= 2_000_000_000_000int && 0 <= progress as int <= 1000,
            ;
        }
        a + diff * (progress as i64) / 1000
    } else {
        let diff: i64 = a - b;
        proof {
            assert(0 <= (diff as int) * (progress as int) <= 2_000_000_000_000_000int)
                by (nonlinear_arith)
                requires
                    0 <= diff as int <= 2_000_000_000_000int && 0 <= progress as int <= 1000,
            ;
        }
        a - diff * (progress as i64) / 1000
    }
}

/// Progress of `now` through the window `[start, start + duration]`, in
/// per-mille, clamped to `[0, 1000]`; a zero-length window counts as
/// complete.
pub open spec fn spec_progress(start: int, duration: int, now: int) -> int {
    if duration <= 0 || now - start >= duration {
        1000
    } else if now <= start {
        0
    } else {
        ((now - start) * 1000) / duration
    }
}

/// Progress always reads within the per-mille range.
pub proof fn lemma_progress_bounds(start: int, duration: int, now: int)
    ensures
        0 <= spec_progress(start, duration, now) <= 1000,
{
    if !(duration <= 0 || now - start >= duration) && now > start {
        assert(0 <= ((now - start) * 1000) / duration <= 1000) by (nonlinear_arith)
            requires
                0 < now - start < duration,
        ;
    }
}

/// Per-mille progress of `now` through the window starting at `start` and
/// lasting `duration` milliseconds.
pub fn progress_per_mille(start: u64, duration: u64, now: u64) -> (r: u32)
    requires
        duration <= 1_000_000_000,
    ensures
        r == spec_progress(start as int, duration as int, now as int),
        r <= 1000,
{
    if duration == 0 || (now >= start && now - start >= duration) {
        1000
    } else if now <= start {
        0
    } else {
        let elapsed: u64 = now - start;
        proof {
            let e = elapsed as int;
            let d = duration as int;
            assert(e * 1000 / d < 1000) by (nonlinear_arith)
                requires
                    0 < d,
                    0 <= e,
                    e < d,
            ;
        }
        (elapsed * 1000 / duration) as u32
    }
}

/// The representative of angle `a` in `[-HALF_TURN_MRAD, HALF_TURN_MRAD)`,
/// shifted by whole turns.
pub open spec fn spec_norm_angle(a: int) -> int {
    ((a + HALF_TURN_MRAD) % (FULL_TURN_MRAD as int)) - HALF_TURN_MRAD
}

/// Normalizes an angle in milliradians into `[-HALF_TURN_MRAD,
/// HALF_TURN_MRAD)`.
pub fn norm_angle(a: i64) -> (r: i64)
    requires
        -1_000_000_000_000 <= a <= 1_000_000_000_000,
    ensures
        r == spec_norm_angle(a as int),
        -HALF_TURN_MRAD <= r < HALF_TURN_MRAD,
{
    let shifted: i64 = a + HALF_TURN_MRAD;
    let m: i64 = shifted % FULL_TURN_MRAD;
    let m: i64 = if m < 0 {
        m + FULL_TURN_MRAD
    } else {
        m
    };
    proof {
        assert(m == (a + HALF_TURN_MRAD) % (FULL_TURN_MRAD as int));
    }
    m - HALF_TURN_MRAD
}

/// Quarter turn in milliradians.
pub const QUARTER_TURN_MRAD: i64 = 1571;

/// The product of a non-negative value with a per-mille factor, scaled
/// back down and rounded toward zero.
pub open spec fn spec_scale_pm(value: int, factor_pm: int) -> int {
    if factor_pm >= 0 {
        value * factor_pm / 1000
    } else {
        -(value * (-factor_pm) / 1000)
    }
}

/// The quotient of `a` over positive `b`, rounded toward zero.
pub open spec fn spec_div_trunc(a: int, b: int) -> int {
    if a >= 0 {
        a / b
    } else {
        -((-a) / b)
    }
}

/// Division rounded toward zero.
pub fn div_trunc(a: i64, b: i64) -> (r: i64)
    requires
        0 < b,
        -1_000_000_000_000_000_000 <= a <= 1_000_000_000_000_000_000,
    ensures
        r == spec_div_trunc(a as int, b as int),
        a >= 0 ==> 0 <= r <= a,
        a < 0 ==> a <= r <= 0,
{
    proof {
        let ai = a as int;
        let bi = b as int;
        assert((ai >= 0 ==> 0 <= ai / bi <= ai) && (ai < 0 ==> 0 <= (-ai) / bi <= -ai))
            by (nonlinear_arith)
            requires
                0 < bi,
                -1_000_000_000_000_000_000 <= ai <= 1_000_000_000_000_000_000,
        ;
    }
    if a >= 0 {
        a / b
    } else {
        -((-a) / b)
    }
}

/// Scales a non-negative value by a per-mille factor, rounding toward
/// zero.
pub fn scale_pm(value: i64, factor_pm: i64) -> (r: i64)
    requires
        0 <= value <= 1_000_000_000,
        -1000 <= factor_pm <= 1000,
    ensures
        r == spec_scale_pm(value as int, factor_pm as int),
        -value <= r <= value,
{
    proof {
        let v = value as int;
        let f = factor_pm as int;
        assert(-1_000_000_000_000int <= v * f <= 1_000_000_000_000int && (f >= 0 ==> 0 <= v * f
            / 1000 <= v) && (f < 0 ==> 0 <= v * (-f) / 1000 <= v)) by (nonlinear_arith)
            requires
                0 <= v <= 1_000_000_000,
                -1000 <= f <= 1000,
        ;
    }
    if factor_pm >= 0 {
        value * factor_pm / 1000
    } else {
        -(value * (-factor_pm) / 1000)
    }
}

/// The sine of an angle in `[0, HALF_TURN_MRAD]`, in per-mille, by the
/// rational approximation `16 a (pi - a) / (5 pi^2 - 4 a (pi - a))`; exact
/// at zero, the quarter turn and the half turn.
pub open spec fn spec_sin_half_pm(a: int) -> int {
    let chord = a * (3142 - a);
    16_000 * chord / (49_360_820 - 4 * chord)
}

/// The sine of any angle in milliradians, in per-mille: the half-turn
/// approximation, odd-extended over the normalized angle.
pub open spec fn spec_sin_pm(a: int) -> int {
    let n = spec_norm_angle(a);
    if n >= 0 {
        spec_sin_half_pm(n)
    } else {
        -spec_sin_half_pm(-n)
    }
}

/// The cosine of any angle in milliradians, in per-mille: the sine a
/// quarter turn ahead.
pub open spec fn spec_cos_pm(a: int) -> int {
    spec_sin_pm(a + QUARTER_TURN_MRAD)
}

/// Sine over a non-negative half turn, in per-mille.
fn sin_half_pm(a: i64) -> (r: i64)
    requires
        0 <= a <= HALF_TURN_MRAD,
    ensures
        r == spec_sin_half_pm(a as int),
        0 <= r <= 1000,
{
    proof {
        assert(0 <= (a as int) * (3142 - a as int) <= 2_468_041int) by (nonlinear_arith)
            requires
                0 <= a as int <= 3142,
        ;
    }
    let chord: i64 = a * (3142 - a);
    proof {
        let c = chord as int;
        assert(0 <= 16_000 * c / (49_360_820 - 4 * c) <= 1000) by (nonlinear_arith)
            requires
                0 <= c <= 2_468_041int,
        ;
    }
    16_000 * chord / (49_360_820 - 4 * chord)
}

/// The sine of an angle in milliradians, in per-mille.
pub fn sin_pm(a: i64) -> (r: i64)
    requires
        -1_000_000_000_000 <= a <= 1_000_000_000_000,
    ensures
        r == spec_sin_pm(a as int),
        -1000 <= r <= 1000,
{
    let n: i64 = norm_angle(a);
    if n >= 0 {
        sin_half_pm(n)
    } else {
        -sin_half_pm(-n)
    }
}

/// The cosine of an angle in milliradians, in per-mille.
pub fn cos_pm(a: i64) -> (r: i64)
    requires
        -999_000_000_000 <= a <= 999_000_000_000,
    ensures
        r == spec_cos_pm(a as int),
        -1000 <= r <= 1000,
{
    sin_pm(a + QUARTER_TURN_MRAD)
}

/// The arctangent of `z` given in per-mille of one, for `z` in `[0, 1]`,
/// in milliradians: the approximation `z * pi / 4 + 0.273 z (1 - z)`,
/// exact at zero and one and within four milliradians elsewhere.
pub open spec fn spec_atan_unit_mrad(z: int) -> int {
    (z * 785 + z * (1000 - z) * 273 / 1000) / 1000
}

/// Arctangent of a per-mille ratio in `[0, 1000]`, in milliradians.
fn atan_unit_mrad(z: i64) -> (r: i64)
    requires
        0 <= z <= 1000,
    ensures
        r == spec_atan_unit_mrad(z as int),
        0 <= r <= 785,
{
    proof {
        let zi = z as int;
        let inner = zi * 785 + zi * (1000 - zi) * 273 / 1000;
        assert(0 <= inner <= 853_250_000int && 0 <= inner / 1000 <= 785) by (nonlinear_arith)
            requires
                0 <= zi <= 1000,
                inner == zi * 785 + zi * (1000 - zi) * 273 / 1000,
        ;
    }
    (z * 785 + z * (1000 - z) * 273 / 1000) / 1000
}

/// The direction of the vector `(dx, dy)` in milliradians, measured from
/// the positive x axis, in `[-HALF_TURN_MRAD, HALF_TURN_MRAD]`: an octant
/// reduction over the unit arctangent approximation. The zero vector reads
/// as direction zero.
pub open spec fn spec_atan2_mrad(dy: int, dx: int) -> int {
    let ax = if dx >= 0 { dx } else { -dx };
    let ay = if dy >= 0 { dy } else { -dy };
    if ax == 0 && ay == 0 {
        0
    } else if ay <= ax {
        let base = spec_atan_unit_mrad(ay * 1000 / ax);
        if dx >= 0 {
            if dy >= 0 { base } else { -base }
        } else {
            if dy >= 0 { HALF_TURN_MRAD - base } else { -(HALF_TURN_MRAD - base) }
        }
    } else {
        let base = spec_atan_unit_mrad(ax * 1000 / ay);
        if dy >= 0 {
            if dx >= 0 { QUARTER_TURN_MRAD - base } else { QUARTER_TURN_MRAD + base }
        } else {
            if dx >= 0 { -(QUARTER_TURN_MRAD - base) } else { -(QUARTER_TURN_MRAD + base) }
        }
    }
}

/// The direction of the vector `(dx, dy)`, in milliradians from the
/// positive x axis.
pub fn atan2_mrad(dy: i64, dx: i64) -> (r: i64)
    requires
        -100_000_000 <= dx <= 100_000_000,
        -100_000_000 <= dy <= 100_000_000,
    ensures
        r == spec_atan2_mrad(dy as int, dx as int),
        -HALF_TURN_MRAD <= r <= HALF_TURN_MRAD,
{
    let ax: i64 = if dx >= 0 {
        dx
    } else {
        -dx
    };
    let ay: i64 = if dy >= 0 {
        dy
    } else {
        -dy
    };
    if ax == 0 && ay == 0 {
        0
    } else if ay <= ax {
        proof {
            assert(0 <= (ay as int) * 1000 / (ax as int) <= 1000) by (nonlinear_arith)
                requires
                    0 <= ay as int <= ax as int,
                    0 < ax as int,
            ;
        }
        let base: i64 = atan_unit_mrad(ay * 1000 / ax);
        if dx >= 0 {
            if dy >= 0 {
                base
            } else {
                -base
            }
        } else {
            if dy >= 0 {
                HALF_TURN_MRAD - base
            } else {
                -(HALF_TURN_MRAD - base)
            }
        }
    } else {
        proof {
            assert(0 <= (ax as int) * 1000 / (ay as int) <= 1000) by (nonlinear_arith)
                requires
                    0 <= ax as int <= ay as int,
                    0 < ay as int,
            ;
        }
        let base: i64 = atan_unit_mrad(ax * 1000 / ay);
        if dy >= 0 {
            if dx >= 0 {
                QUARTER_TURN_MRAD - base
            } else {
                QUARTER_TURN_MRAD + base
            }
        } else {
            if dx >= 0 {
                -(QUARTER_TURN_MRAD - base)
            } else {
                -(QUARTER_TURN_MRAD + base)
            }
        }
    }
}

/// The approximate arctangent is exact on the axes: due east reads zero,
/// due north a quarter turn, due west a half turn, due south a negative
/// quarter turn.
pub proof fn lemma_atan2_axes(d: int)
    requires
        0 < d,
    ensures
        spec_atan2_mrad(0, d) == 0,
        spec_atan2_mrad(d, 0) == QUARTER_TURN_MRAD,
        spec_atan2_mrad(0, -d) == HALF_TURN_MRAD,
        spec_atan2_mrad(-d, 0) == -QUARTER_TURN_MRAD,
{
    assert((0int) * 1000 / d == 0 && spec_atan_unit_mrad(0) == 0) by (nonlinear_arith)
        requires
            0 < d,
    ;
}


/// Stepping from a normalized angle by the shortest signed difference
/// toward another normalized angle, then normalizing, lands exactly on the
/// latter.
pub proof fn lemma_norm_angle_add_difference(o: int, t: int)
    requires
        -HALF_TURN_MRAD <= o < HALF_TURN_MRAD,
        -HALF_TURN_MRAD <= t < HALF_TURN_MRAD,
    ensures
        spec_norm_angle(o + spec_angle_difference(o, t)) == t,
{
    let x = t - o + 3142;
    vstd::arithmetic::div_mod::lemma_fundamental_div_mod(x, 6284);
    let q = x / 6284;
    let d = (x % 6284) - 3142;
    assert(o + d + 3142 == 6284 * (-q) + (t + 3142));
    vstd::arithmetic::div_mod::lemma_mod_multiples_vanish(-q, t + 3142, 6284);
    vstd::arithmetic::div_mod::lemma_small_mod((t + 3142) as nat, 6284 as nat);
}

/// The difference `b - a` reduced to the shortest signed turn, in
/// milliradians.
pub open spec fn spec_angle_difference(a: int, b: int) -> int {
    spec_norm_angle(b - a)
}

/// Shortest signed angular difference from `a` to `b`, in milliradians.
pub fn angle_difference(a: i64, b: i64) -> (r: i64)
    requires
        -500_000_000_000 <= a <= 500_000_000_000,
        -500_000_000_000 <= b <= 500_000_000_000,
    ensures
        r == spec_angle_difference(a as int, b as int),
        -HALF_TURN_MRAD <= r < HALF_TURN_MRAD,
{
    norm_angle(b - a)
}

} // verus!

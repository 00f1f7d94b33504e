//! Projectile ballistics: launch jitter for velocity and direction, and
//! the straight-line intercept point against a linearly moving target.

use crate::math::{is_isqrt, isqrt_u128, lemma_isqrt_exists, lemma_isqrt_unique, spec_isqrt};
use crate::rng::{rng_range_u64, sample_normal};
use crate::vec2::Vec2;
use crate::weapon::WeaponConfig;
use vstd::prelude::*;

verus! {

/// Longest flight time the intercept solver aims for, in milliseconds; an
/// intercept farther out falls back to the target's present position.
pub const MAX_INTERCEPT_TIME: u64 = 60_000;

/// Half-width of the per-fragment direction jitter, in milliradians.
pub const FRAGMENT_DEVIATION_MRAD: i64 = 20;

/// The per-mille of the muzzle velocity that one standard deviation of
/// launch-velocity jitter spans.
pub const VELOCITY_DEVIATION_PER_MILLE: u64 = 60;

/// One standard deviation of launch-velocity jitter, in millimeters per
/// second.
pub open spec fn spec_velocity_std(c: WeaponConfig) -> int {
    c.muzzle_velocity as int * VELOCITY_DEVIATION_PER_MILLE as int / 1000
}

/// A launch velocity: the muzzle velocity jittered by a zero-mean sample
/// of standard deviation six percent of it. The result stays positive and
/// within six standard deviations of the muzzle velocity.
pub fn generate_velocity(config: &WeaponConfig, rng: &mut rand_pcg::Pcg32) -> (r: u64)
    requires
        config.wf(),
    ensures
        config.muzzle_velocity as int - 6 * spec_velocity_std(*config) <= r as int
            <= config.muzzle_velocity as int + 6 * spec_velocity_std(*config),
{
    let std: u64 = config.muzzle_velocity * VELOCITY_DEVIATION_PER_MILLE / 1000;
    let jitter: i64 = sample_normal(rng, std);
    proof {
        let m = config.muzzle_velocity as int;
        assert(6 * (m * 60 / 1000) <= m) by (nonlinear_arith)
            requires
                0 <= m,
        ;
    }
    ((config.muzzle_velocity as i64) + jitter) as u64
}

/// A launch direction for one fragment: the base direction jittered by a
/// uniform draw of at most `FRAGMENT_DEVIATION_MRAD` either way.
pub fn deviate_direction(rng: &mut rand_pcg::Pcg32, direction: i64) -> (r: i64)
    requires
        -500_000_000_000 <= direction <= 500_000_000_000,
    ensures
        direction - FRAGMENT_DEVIATION_MRAD <= r <= direction + FRAGMENT_DEVIATION_MRAD,
{
    let draw: u64 = rng_range_u64(rng, 0, 41);
    direction - FRAGMENT_DEVIATION_MRAD + (draw as i64)
}

/// An aiming error for the weapon model itself: a zero-mean angular sample
/// whose standard deviation is the configured angular deviation.
pub fn generate_deviation(config: &WeaponConfig, rng: &mut rand_pcg::Pcg32) -> (r: i64)
    requires
        config.wf(),
    ensures
        -6 * config.deviation as int <= r as int <= 6 * config.deviation as int,
{
    sample_normal(rng, config.deviation)
}

/// The time, in milliseconds, after which a projectile of the given speed
/// (millimeters per second) fired now from the origin meets a target that
/// starts at offset `d` (millimeters) and keeps velocity `v` (millimeters
/// per second); `None` when no such non-negative time exists. Derived from
/// `|d + v * t / 1000| == speed * t / 1000`, squared and scaled by a
/// million into `a t^2 + b t + c == 0` with `a = |v|^2 - speed^2`,
/// `b = 2000 (d . v)` and `c = 1_000_000 |d|^2`.
pub open spec fn spec_intercept_time(d: Vec2, v: Vec2, speed: int) -> Option<int> {
    let a = v.spec_len_sq() - speed * speed;
    let b = 2000 * (d.x * v.x + d.y * v.y);
    let c = 1_000_000 * d.spec_len_sq();
    if a < 0 {
        Some((b + spec_isqrt(b * b - 4 * a * c)) / (2 * -a))
    } else if a == 0 {
        if b < 0 {
            Some(c / -b)
        } else {
            None
        }
    } else {
        let disc = b * b - 4 * a * c;
        if disc < 0 {
            None
        } else {
            let root = spec_isqrt(disc);
            if -b - root >= 0 {
                Some((-b - root) / (2 * a))
            } else if -b + root >= 0 {
                Some((-b + root) / (2 * a))
            } else {
                None
            }
        }
    }
}

/// The earliest intercept time against a moving target, in milliseconds,
/// or `None` when the target cannot be met within `MAX_INTERCEPT_TIME`.
pub fn intercept_time(d: Vec2, v: Vec2, speed: u64) -> (r: Option<u64>)
    requires
        -20_000_000 <= d.x <= 20_000_000,
        -20_000_000 <= d.y <= 20_000_000,
        v.spec_is_velocity(),
        speed <= 10_000_000,
    ensures
        match r {
            Some(t) => spec_intercept_time(d, v, speed as int) == Some(t as int) && t
                <= MAX_INTERCEPT_TIME,
            None => match spec_intercept_time(d, v, speed as int) {
                Some(t) => t > MAX_INTERCEPT_TIME as int,
                None => true,
            },
        },
{
    proof {
        assert(0 <= v.x as int * v.x as int <= 40_000_000_000int && 0 <= v.y as int * v.y as int
            <= 40_000_000_000int && 0 <= (speed as int) * (speed as int)
            <= 100_000_000_000_000int && -4_000_000_000_000int <= d.x as int * v.x as int
            <= 4_000_000_000_000int && -4_000_000_000_000int <= d.y as int * v.y as int
            <= 4_000_000_000_000int && 0 <= d.x as int * d.x as int <= 400_000_000_000_000int
            && 0 <= d.y as int * d.y as int <= 400_000_000_000_000int) by (nonlinear_arith)
            requires
                -20_000_000 <= d.x as int <= 20_000_000,
                -20_000_000 <= d.y as int <= 20_000_000,
                -200_000 <= v.x as int <= 200_000,
                -200_000 <= v.y as int <= 200_000,
                0 <= speed as int <= 10_000_000,
        ;
    }
    let a: i128 = (v.x as i128) * (v.x as i128) + (v.y as i128) * (v.y as i128) - (speed as i128)
        * (speed as i128);
    let b: i128 = 2000 * ((d.x as i128) * (v.x as i128) + (d.y as i128) * (v.y as i128));
    let c: i128 = 1_000_000 * ((d.x as i128) * (d.x as i128) + (d.y as i128) * (d.y as i128));

    if a < 0 {
        proof {
            assert(0 <= b * b <= 256_000_000_000_000_000_000_000_000_000_000int
                && -320_000_000_000_000_000_000_000_000_000_000_000int <= 4 * a * c <= 0 && b * b
                - 4 * a * c >= 0) by (nonlinear_arith)
                requires
                    -16_000_000_000_000_000int <= b <= 16_000_000_000_000_000int,
                    -100_000_000_000_000int <= a < 0,
                    0 <= c <= 800_000_000_000_000_000_000int,
            ;
        }
        let disc: i128 = b * b - 4 * a * c;
        let root_wide: u128 = isqrt_u128(disc as u128);
        proof {
            assert(disc as u128 as int == disc as int);
            assert(root_wide as int <= 700_000_000_000_000_000int) by (nonlinear_arith)
                requires
                    is_isqrt(disc as int, root_wide as int),
                    0 <= disc as int <= 400_000_000_000_000_000_000_000_000_000_000_000int,
            ;
        }
        let root: i128 = root_wide as i128;
        proof {
            let abs_b = if b >= 0 {
                b as int
            } else {
                -b as int
            };
            assert(is_isqrt(b * b, abs_b)) by (nonlinear_arith)
                requires
                    abs_b == if b >= 0 {
                        b as int
                    } else {
                        -b as int
                    },
            ;
            lemma_isqrt_exists(b * b);
            lemma_isqrt_unique(b * b, spec_isqrt(b * b), abs_b);
            crate::math::lemma_isqrt_monotone(b * b, disc as int);
            assert(root as int >= abs_b);
        }
        let t: i128 = (b + root) / (2 * -a);
        proof {
            let num = b as int + root as int;
            let den = 2 * (-(a as int));
            assert(0 <= num / den <= num) by (nonlinear_arith)
                requires
                    0 <= num,
                    2 <= den,
            ;
        }
        if t <= 60_000 {
            Some(t as u64)
        } else {
            None
        }
    } else if a == 0 {
        if b < 0 {
            let t: i128 = c / -b;
            proof {
                let den = -(b as int);
                let ci = c as int;
                assert(0 <= ci / den <= ci) by (nonlinear_arith)
                    requires
                        0 <= ci,
                        1 <= den,
                ;
            }
            if t <= 60_000 {
                Some(t as u64)
            } else {
                None
            }
        } else {
            None
        }
    } else {
        proof {
            assert(0 <= b * b <= 256_000_000_000_000_000_000_000_000_000_000int && 0 <= 4 * a * c
                <= 320_000_000_000_000_000_000_000_000_000_000_000int) by (nonlinear_arith)
                requires
                    -16_000_000_000_000_000int <= b <= 16_000_000_000_000_000int,
                    0 < a <= 100_000_000_000_000int,
                    0 <= c <= 800_000_000_000_000_000_000int,
            ;
        }
        let disc: i128 = b * b - 4 * a * c;
        if disc < 0 {
            None
        } else {
            let root_wide: u128 = isqrt_u128(disc as u128);
            proof {
                assert(disc as u128 as int == disc as int);
                assert(root_wide as int <= 700_000_000_000_000_000int) by (nonlinear_arith)
                    requires
                        is_isqrt(disc as int, root_wide as int),
                        0 <= disc as int <= 400_000_000_000_000_000_000_000_000_000_000_000int,
                ;
            }
            let root: i128 = root_wide as i128;
            if -b - root >= 0 {
                let t: i128 = (-b - root) / (2 * a);
                proof {
                    let num = -(b as int) - root as int;
                    let den = 2 * (a as int);
                    assert(0 <= num / den <= num) by (nonlinear_arith)
                        requires
                            0 <= num,
                            2 <= den,
                    ;
                }
                if t <= 60_000 {
                    Some(t as u64)
                } else {
                    None
                }
            } else if -b + root >= 0 {
                let t: i128 = (-b + root) / (2 * a);
                proof {
                    let num = -(b as int) + root as int;
                    let den = 2 * (a as int);
                    assert(0 <= num / den <= num) by (nonlinear_arith)
                        requires
                            0 <= num,
                            2 <= den,
                    ;
                }
                if t <= 60_000 {
                    Some(t as u64)
                } else {
                    None
                }
            } else {
                None
            }
        }
    }
}

/// The displacement one component of a velocity (millimeters per second)
/// covers in `t` milliseconds, rounded toward zero.
pub open spec fn spec_travel(v: int, t: int) -> int {
    if v >= 0 {
        v * t / 1000
    } else {
        -(-v * t / 1000)
    }
}

/// The point to aim at so that a projectile of the given speed meets the
/// target: its present position, pushed along its velocity by the
/// intercept time — or the present position itself when no intercept
/// within `MAX_INTERCEPT_TIME` exists.
pub open spec fn spec_find_intercept(shooter: Vec2, speed: int, target: Vec2, v: Vec2) -> Vec2 {
    let d = Vec2 { x: (target.x - shooter.x) as i64, y: (target.y - shooter.y) as i64 };
    match spec_intercept_time(d, v, speed) {
        Some(t) => if 0 <= t <= MAX_INTERCEPT_TIME as int {
            Vec2 {
                x: (target.x + spec_travel(v.x as int, t)) as i64,
                y: (target.y + spec_travel(v.y as int, t)) as i64,
            }
        } else {
            target
        },
        None => target,
    }
}

/// The point a constant-velocity projectile fired now would meet the
/// linearly moving target; a target that is unreachable, or met only
/// beyond `MAX_INTERCEPT_TIME`, is aimed at where it stands. A standing
/// target is aimed at exactly.
pub fn find_intercept(shooter: Vec2, speed: u64, target: Vec2, velocity: Vec2) -> (r: Vec2)
    requires
        shooter.spec_in_world(),
        target.spec_in_world(),
        velocity.spec_is_velocity(),
        speed <= 10_000_000,
    ensures
        r == spec_find_intercept(shooter, speed as int, target, velocity),
        velocity == (Vec2 { x: 0i64, y: 0i64 }) ==> r == target,
        -22_000_000 <= r.x <= 22_000_000,
        -22_000_000 <= r.y <= 22_000_000,
{
    let d = target.sub(shooter);
    match intercept_time(d, velocity, speed) {
        Some(t) => {
            let sx: i64 = travel(velocity.x, t);
            let sy: i64 = travel(velocity.y, t);
            Vec2 { x: target.x + sx, y: target.y + sy }
        },
        None => target,
    }
}

/// The displacement one velocity component covers in `t` milliseconds.
fn travel(v: i64, t: u64) -> (r: i64)
    requires
        -200_000 <= v <= 200_000,
        t <= 60_000,
    ensures
        r == spec_travel(v as int, t as int),
        -12_000_000 <= r <= 12_000_000,
{
    proof {
        let vi = v as int;
        let ti = t as int;
        assert(-12_000_000_000int <= vi * ti <= 12_000_000_000int && (vi >= 0 ==> 0 <= vi * ti
            / 1000 <= 12_000_000) && (vi < 0 ==> 0 <= (-vi) * ti / 1000 <= 12_000_000))
            by (nonlinear_arith)
            requires
                -200_000 <= vi <= 200_000,
                0 <= ti <= 60_000,
        ;
    }
    if v >= 0 {
        v * (t as i64) / 1000
    } else {
        -(-v * (t as i64) / 1000)
    }
}

} // verus!

//! Intercept aiming, launch jitter, and the fixed-point math under them.

use combat_core::ballistics::{deviate_direction, find_intercept, generate_velocity};
use combat_core::math::{angle_difference, cos_pm, isqrt, lerp_i64, norm_angle, sin_pm};
use combat_core::vec2::Vec2;
use combat_core::weapon::WeaponConfig;
use rand::SeedableRng;

#[test]
fn stationary_target_is_aimed_at_exactly() {
    // Whatever the shooter position and projectile speed, a target that
    // does not move is aimed at where it stands.
    let target = Vec2::new(1_234, -5_678);
    let still = Vec2::new(0, 0);
    for shooter in [
        Vec2::new(0, 0),
        Vec2::new(-9_000_000, 4_000_000),
        Vec2::new(1_234, -5_678),
    ] {
        for speed in [0u64, 1, 315_000, 10_000_000] {
            assert_eq!(find_intercept(shooter, speed, target, still), target);
        }
    }
}

#[test]
fn receding_target_is_led() {
    // Target one meter east, fleeing east at half the projectile speed:
    // the projectile closes at 500 mm/s over 1000 mm, so they meet after
    // two seconds, one meter further east.
    let shooter = Vec2::new(0, 0);
    let target = Vec2::new(1_000, 0);
    let velocity = Vec2::new(500, 0);
    let aim = find_intercept(shooter, 1_000, target, velocity);
    assert_eq!(aim, Vec2::new(2_000, 0));
}

#[test]
fn unreachable_target_falls_back_to_present_position() {
    // The target outruns the projectile straight away from the shooter: no
    // intercept exists, so the bot aims at where the target is.
    let shooter = Vec2::new(0, 0);
    let target = Vec2::new(1_000, 0);
    let velocity = Vec2::new(200, 0);
    let aim = find_intercept(shooter, 100, target, velocity);
    assert_eq!(aim, target);
}

#[test]
fn launch_velocity_stays_near_muzzle_velocity() {
    let config = WeaponConfig::ak_74m();
    let mut rng = rand_pcg::Pcg32::seed_from_u64(11);
    let std = config.muzzle_velocity * 60 / 1000;
    let mut saw_jitter = false;
    for _ in 0..100 {
        let v = generate_velocity(&config, &mut rng);
        assert!(v >= config.muzzle_velocity - 6 * std);
        assert!(v <= config.muzzle_velocity + 6 * std);
        if v != config.muzzle_velocity {
            saw_jitter = true;
        }
    }
    assert!(saw_jitter, "the launch velocity must actually be jittered");
}

#[test]
fn fragment_direction_stays_within_jitter_band() {
    let mut rng = rand_pcg::Pcg32::seed_from_u64(5);
    let mut saw_jitter = false;
    for _ in 0..100 {
        let d = deviate_direction(&mut rng, 1_000);
        assert!((980..=1_020).contains(&d));
        if d != 1_000 {
            saw_jitter = true;
        }
    }
    assert!(saw_jitter, "the direction must actually be jittered");
}

#[test]
fn integer_square_root_rounds_down() {
    assert_eq!(isqrt(0), 0);
    assert_eq!(isqrt(1), 1);
    assert_eq!(isqrt(15), 3);
    assert_eq!(isqrt(16), 4);
    assert_eq!(isqrt(1_000_000), 1_000);
    assert_eq!(isqrt(u64::MAX), 4_294_967_295);
}

#[test]
fn trigonometry_is_exact_on_the_axes() {
    assert_eq!(cos_pm(0), 1_000);
    assert_eq!(sin_pm(0), 0);
    assert_eq!(sin_pm(1_571), 1_000);
    assert_eq!(cos_pm(1_571), 0);
    assert_eq!(sin_pm(3_142), 0);
    assert_eq!(sin_pm(-1_571), -1_000);
}

#[test]
fn directions_on_the_axes_are_exact() {
    let origin = Vec2::new(0, 0);
    assert_eq!(origin.angle_to(Vec2::new(500, 0)), 0);
    assert_eq!(origin.angle_to(Vec2::new(0, 500)), 1_571);
    assert_eq!(origin.angle_to(Vec2::new(-500, 0)), 3_142);
    assert_eq!(origin.angle_to(Vec2::new(0, -500)), -1_571);
}

#[test]
fn angle_difference_takes_the_short_way() {
    assert_eq!(angle_difference(0, 1_000), 1_000);
    assert_eq!(angle_difference(1_000, 0), -1_000);
    // From just under a half turn to just over its negative: the short way
    // crosses the seam.
    assert_eq!(angle_difference(3_000, -3_000), 284);
    assert_eq!(norm_angle(3_142), -3_142);
    assert_eq!(norm_angle(6_284), 0);
    assert_eq!(norm_angle(-6_284), 0);
}

#[test]
fn interpolation_endpoints_are_exact() {
    assert_eq!(lerp_i64(0, 1_000, 0), 0);
    assert_eq!(lerp_i64(0, 1_000, 500), 500);
    assert_eq!(lerp_i64(0, 1_000, 1_000), 1_000);
    assert_eq!(lerp_i64(1_000, -1_000, 500), 0);
    assert_eq!(lerp_i64(1_000, -1_000, 1_000), -1_000);
}

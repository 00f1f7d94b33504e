//! The weapon state machine, exercised over concrete firing and reloading
//! timelines.

use combat_core::weapon::{Weapon, WeaponConfig, WeaponFireResult, WeaponGrip};

fn rifle() -> WeaponConfig {
    WeaponConfig::ak_74m()
}

#[test]
fn new_weapon_is_loaded_and_ready() {
    let weapon = Weapon::new(rifle());
    assert!(weapon.is_armed());
    assert!(weapon.is_cocked());
    assert!(!weapon.is_trigger_pressed());
    assert!(!weapon.is_reloading());
    assert_eq!(weapon.ammo, 30);
    assert!(weapon.is_ready(0));
}

#[test]
fn fire_rate_gates_consecutive_shots() {
    // 600 rounds/minute is one round per 100 ms.
    let mut weapon = Weapon::new(rifle());
    assert_eq!(weapon.fire(1), WeaponFireResult::Fire);
    assert_eq!(weapon.fire(50), WeaponFireResult::NotReady);
    assert_eq!(weapon.fire(100), WeaponFireResult::NotReady);
    assert_eq!(weapon.fire(101), WeaponFireResult::Fire);
    assert_eq!(weapon.ammo, 28);
}

#[test]
fn semi_automatic_needs_trigger_release() {
    let mut weapon = Weapon::new(WeaponConfig::pm());
    assert_eq!(weapon.fire(1), WeaponFireResult::Fire);
    assert!(weapon.is_trigger_pressed());
    // Plenty of time has passed, but the trigger is still latched.
    assert_eq!(weapon.fire(10_000), WeaponFireResult::NotReady);
    weapon.release_trigger();
    assert_eq!(weapon.fire(10_000), WeaponFireResult::Fire);
}

#[test]
fn continuous_fire_empties_the_magazine() {
    // Capacity 30 at 600 rounds/minute: firing continuously for 3.1
    // seconds means 31 attempts at the fastest allowed pace, of which the
    // first 30 succeed and the 31st clicks empty and un-arms the weapon.
    let mut weapon = Weapon::new(rifle());
    let mut fired = 0;
    for attempt in 0..31u64 {
        let now = 1 + attempt * 100;
        assert!(now <= 3_100);
        match weapon.fire(now) {
            WeaponFireResult::Fire => fired += 1,
            WeaponFireResult::Empty => {
                assert_eq!(attempt, 30, "only the 31st pull comes up empty");
            }
            WeaponFireResult::NotReady => panic!("pace was chosen to always be ready"),
        }
    }
    assert_eq!(fired, 30);
    assert_eq!(weapon.ammo, 0);
    assert!(!weapon.is_armed());
    assert!(!weapon.is_cocked());
}

#[test]
fn full_reload_fills_magazine_exactly() {
    let mut weapon = Weapon::new(rifle());
    assert_eq!(weapon.fire(1), WeaponFireResult::Fire);
    weapon.reload(200, weapon.config.reloading_time);
    assert!(weapon.is_reloading());
    assert_eq!(weapon.ammo, 0, "a full reloader empties at once");
    // A second request while one is in flight is a no-op.
    weapon.reload(300, weapon.config.reloading_time);
    assert_eq!(weapon.ammo, 0);
    weapon.complete_reloading(200 + weapon.config.reloading_time + 1);
    assert!(!weapon.is_reloading());
    assert_eq!(weapon.ammo, weapon.config.ammo_capacity);
}

#[test]
fn rearming_imposes_chambering_delay() {
    let mut weapon = Weapon::new(rifle());
    weapon.ammo = 0;
    assert_eq!(weapon.fire(1), WeaponFireResult::Empty);
    assert!(!weapon.is_armed());
    weapon.reload(200, 5_000);
    weapon.complete_reloading(5_300);
    assert!(weapon.is_armed());
    // 300 ms of chambering: not ready before 5600.
    assert_eq!(weapon.fire(5_599), WeaponFireResult::NotReady);
    assert_eq!(weapon.fire(5_600), WeaponFireResult::Fire);
}

#[test]
fn partial_reload_round_trip_from_full() {
    // A partial reloader with a full tube gives one shell up, then chambers
    // it back: the count ends where it began.
    let mut weapon = Weapon::new(WeaponConfig::mp_27());
    assert_eq!(weapon.ammo, 2);
    weapon.reload(10, 1_800);
    assert_eq!(weapon.ammo, 1);
    weapon.complete_reloading(2_000);
    assert_eq!(weapon.ammo, 2);
}

#[test]
fn partial_reload_adds_one_round_per_cycle() {
    let mut weapon = Weapon::new(WeaponConfig::mp_27());
    weapon.ammo = 0;
    let mut now = 1u64;
    for expected in 1..=2u8 {
        weapon.reload(now, 1_800);
        now += 1_900;
        weapon.complete_reloading(now);
        assert_eq!(weapon.ammo, expected);
    }
    // One more cycle from full: down one shell, back up to capacity.
    weapon.reload(now, 1_800);
    assert_eq!(weapon.ammo, 1);
    now += 1_900;
    weapon.complete_reloading(now);
    assert_eq!(weapon.ammo, 2);
}

#[test]
fn ammo_stays_within_capacity_over_arbitrary_sequences() {
    let mut weapon = Weapon::new(WeaponConfig::mp_43_sawed_off());
    let mut now = 1u64;
    for step in 0..200u64 {
        match step % 5 {
            0 | 1 | 2 => {
                weapon.fire(now);
                weapon.release_trigger();
            }
            3 => weapon.reload(now, 1_200),
            _ => weapon.complete_reloading(now),
        }
        assert!(weapon.ammo <= weapon.config.ammo_capacity);
        now += 400;
    }
}

#[test]
fn ammo_normalized_reads_magazine_fraction() {
    let mut weapon = Weapon::new(rifle());
    assert_eq!(weapon.get_ammo_normalized(1), 1_000);
    weapon.ammo = 15;
    assert_eq!(weapon.get_ammo_normalized(1), 500);
    weapon.ammo = 0;
    assert_eq!(weapon.get_ammo_normalized(1), 0);
}

#[test]
fn ammo_normalized_sweeps_during_full_reload() {
    let mut weapon = Weapon::new(rifle());
    weapon.fire(1);
    weapon.reload(100, 5_000);
    // The refill bar reads raw progress through the reload window.
    assert_eq!(weapon.get_ammo_normalized(100), 0);
    assert_eq!(weapon.get_ammo_normalized(2_600), 500);
    assert_eq!(weapon.get_ammo_normalized(5_100), 1_000);
    assert_eq!(weapon.get_ammo_normalized(9_999), 1_000);
}

#[test]
fn ammo_normalized_interpolates_partial_reload() {
    let mut weapon = Weapon::new(WeaponConfig::mp_27());
    weapon.ammo = 0;
    weapon.reload(0, 1_800);
    // From zero of two toward one of two: half the bar, swept by progress.
    assert_eq!(weapon.get_ammo_normalized(0), 0);
    assert_eq!(weapon.get_ammo_normalized(900), 250);
    assert_eq!(weapon.get_ammo_normalized(1_800), 500);
}

#[test]
fn zero_capacity_weapon_always_reads_full() {
    let melee = WeaponConfig {
        ammo_capacity: 0,
        ..WeaponConfig::pm()
    };
    let mut weapon = Weapon::new(melee);
    assert_eq!(weapon.get_ammo_normalized(1), 1_000);
    assert_eq!(weapon.fire(1), WeaponFireResult::Fire);
    assert_eq!(weapon.get_ammo_normalized(2), 1_000);
}

#[test]
fn recoil_grows_as_magazine_empties() {
    let mut weapon = Weapon::new(WeaponConfig::pm());
    assert_eq!(weapon.get_mass(), 778);
    assert_eq!(weapon.get_recoil(), 9_295);
    let full = weapon.get_recoil();
    weapon.ammo = 0;
    assert_eq!(weapon.get_mass(), 730);
    assert!(weapon.get_recoil() >= full);
}

#[test]
fn weapon_image_paths_follow_the_model_name() {
    assert_eq!(WeaponConfig::pm().get_image_path(), "weapons/PM/image.png");
    assert_eq!(
        WeaponConfig::mp_43_sawed_off().get_image_path(),
        "weapons/MP-43 sawed-off/image.png"
    );
}

#[test]
fn grip_factors_and_sprite_suffixes() {
    assert_eq!(WeaponGrip::OneHand.recoil_factor(), 500);
    assert_eq!(WeaponGrip::TwoHands.recoil_factor(), 750);
    assert_eq!(WeaponGrip::TwoHandsWithButt.recoil_factor(), 1_000);
    assert_eq!(WeaponGrip::OneHand.actor_image_suffix(), 1);
    assert_eq!(WeaponGrip::TwoHands.actor_image_suffix(), 2);
    assert_eq!(WeaponGrip::TwoHandsWithButt.actor_image_suffix(), 2);
}

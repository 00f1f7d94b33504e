//! The weapon-drive step and the stamina bookkeeping it sits beside.

use combat_core::actor::{Actor, ActorActions, ActorConfig};
use combat_core::drive::drive_weapon;
use combat_core::vec2::Vec2;
use combat_core::weapon::{Weapon, WeaponConfig};
use rand::SeedableRng;

fn attack_actions() -> ActorActions {
    let mut actions = ActorActions::empty();
    actions.attack = true;
    actions
}

#[test]
fn firing_spawns_one_projectile_per_fragment() {
    let mut weapon = Weapon::new(WeaponConfig::ak_74m());
    let mut rng = rand_pcg::Pcg32::seed_from_u64(1);
    let outcome = drive_weapon(
        attack_actions(),
        &mut weapon,
        Vec2::new(0, 0),
        0,
        &mut rng,
        1,
    );
    assert!(outcome.fired);
    assert!(!outcome.dry_fired);
    assert!(!outcome.reload_started);
    assert_eq!(outcome.projectiles.len(), 1);
    let shot = &outcome.projectiles[0];
    // The muzzle sits one barrel length east of a shooter facing east.
    assert_eq!(shot.position, Vec2::new(1_150, 0));
    assert!((-20..=20).contains(&shot.direction));
    let std = weapon.config.muzzle_velocity * 60 / 1000;
    assert!(shot.velocity >= weapon.config.muzzle_velocity - 6 * std);
    assert!(shot.velocity <= weapon.config.muzzle_velocity + 6 * std);
    assert_eq!(weapon.ammo, 29);
}

#[test]
fn shotgun_spawns_a_full_spread() {
    let mut weapon = Weapon::new(WeaponConfig::saiga_12k());
    let mut rng = rand_pcg::Pcg32::seed_from_u64(2);
    let outcome = drive_weapon(
        attack_actions(),
        &mut weapon,
        Vec2::new(0, 0),
        1_571,
        &mut rng,
        1,
    );
    assert!(outcome.fired);
    assert_eq!(outcome.projectiles.len(), 9);
    for (k, pellet) in outcome.projectiles.iter().enumerate() {
        // Direction jitter is cumulative: each pellet strays at most
        // another jitter step from the last.
        let band = 20 * (k as i64 + 1);
        assert!(pellet.direction >= 1_571 - band);
        assert!(pellet.direction <= 1_571 + band);
        // The muzzle of a shooter facing north sits due north.
        assert_eq!(pellet.position, Vec2::new(0, 1_150));
    }
    assert_eq!(weapon.ammo, 7);
}

#[test]
fn holding_attack_respects_the_fire_gate() {
    let mut weapon = Weapon::new(WeaponConfig::ak_74m());
    let mut rng = rand_pcg::Pcg32::seed_from_u64(3);
    let first = drive_weapon(
        attack_actions(),
        &mut weapon,
        Vec2::new(0, 0),
        0,
        &mut rng,
        1,
    );
    assert!(first.fired);
    let too_soon = drive_weapon(
        attack_actions(),
        &mut weapon,
        Vec2::new(0, 0),
        0,
        &mut rng,
        50,
    );
    assert!(!too_soon.fired);
    assert!(!too_soon.dry_fired);
    assert!(too_soon.projectiles.is_empty());
}

#[test]
fn reload_request_starts_a_reload_and_nothing_else() {
    let mut weapon = Weapon::new(WeaponConfig::ak_74m());
    let mut rng = rand_pcg::Pcg32::seed_from_u64(4);
    let mut actions = ActorActions::empty();
    actions.reload = true;
    actions.attack = true;
    let outcome = drive_weapon(actions, &mut weapon, Vec2::new(0, 0), 0, &mut rng, 1);
    assert!(outcome.reload_started);
    assert!(!outcome.fired);
    assert!(outcome.projectiles.is_empty());
    assert!(weapon.is_reloading());
}

#[test]
fn due_reload_completes_on_the_next_tick() {
    let mut weapon = Weapon::new(WeaponConfig::ak_74m());
    let mut rng = rand_pcg::Pcg32::seed_from_u64(5);
    let mut actions = ActorActions::empty();
    actions.reload = true;
    drive_weapon(actions, &mut weapon, Vec2::new(0, 0), 0, &mut rng, 1);
    let later = 1 + weapon.config.reloading_time + 1;
    let outcome = drive_weapon(
        ActorActions::empty(),
        &mut weapon,
        Vec2::new(0, 0),
        0,
        &mut rng,
        later,
    );
    assert!(outcome.reload_completed);
    assert!(!weapon.is_reloading());
    assert_eq!(weapon.ammo, weapon.config.ammo_capacity);
}

#[test]
fn dry_pull_clicks_once() {
    let mut weapon = Weapon::new(WeaponConfig::ak_74m());
    weapon.ammo = 0;
    let mut rng = rand_pcg::Pcg32::seed_from_u64(6);
    let first = drive_weapon(
        attack_actions(),
        &mut weapon,
        Vec2::new(0, 0),
        0,
        &mut rng,
        1,
    );
    assert!(first.dry_fired);
    assert!(!first.fired);
    assert!(!weapon.is_armed());
    // Holding the trigger on the dead weapon gives no second click.
    let held = drive_weapon(
        attack_actions(),
        &mut weapon,
        Vec2::new(0, 0),
        0,
        &mut rng,
        500,
    );
    assert!(!held.dry_fired);
}

#[test]
fn letting_go_of_attack_releases_the_trigger() {
    let mut weapon = Weapon::new(WeaponConfig::pm());
    let mut rng = rand_pcg::Pcg32::seed_from_u64(7);
    drive_weapon(
        attack_actions(),
        &mut weapon,
        Vec2::new(0, 0),
        0,
        &mut rng,
        1,
    );
    assert!(weapon.is_trigger_pressed());
    drive_weapon(
        ActorActions::empty(),
        &mut weapon,
        Vec2::new(0, 0),
        0,
        &mut rng,
        200,
    );
    assert!(!weapon.is_trigger_pressed());
}

#[test]
fn stamina_drains_sprinting_and_recovers_resting() {
    let mut actor = Actor::new(ActorConfig::human(), 1_000);
    // A full bar takes 16 seconds: 1.6 seconds moves it by 100 per-mille.
    actor.stamina = 500;
    actor.movement = Vec2::new(100, 0);
    actor.actions.sprint = true;
    actor.update_stamina(1_600);
    assert_eq!(actor.stamina, 400);

    // Moving without sprinting: the gain is scaled by half the bar.
    actor.actions.sprint = false;
    actor.update_stamina(1_600);
    assert_eq!(actor.stamina, 420);

    // Resting gains the full rate and clamps at a full bar.
    actor.movement = Vec2::new(0, 0);
    actor.update_stamina(1_600);
    assert_eq!(actor.stamina, 520);
    actor.update_stamina(1_000_000);
    assert_eq!(actor.stamina, 1_000);
}

#[test]
fn stamina_never_goes_negative() {
    let mut actor = Actor::new(ActorConfig::human(), 1_000);
    actor.stamina = 50;
    actor.movement = Vec2::new(100, 0);
    actor.actions.sprint = true;
    actor.update_stamina(1_600);
    assert_eq!(actor.stamina, 0);
    actor.update_stamina(1_600);
    assert_eq!(actor.stamina, 0);
}

#[test]
fn image_paths_follow_kind_and_grip() {
    let human = ActorConfig::human();
    let zombie = ActorConfig::zombie();
    assert_eq!(human.get_image_path(0), "actors/human/image_1.png");
    assert_eq!(human.get_image_path(1), "actors/human/image_1.png");
    assert_eq!(human.get_image_path(2), "actors/human/image_2.png");
    assert_eq!(human.get_image_path(9), "actors/human/image_2.png");
    assert_eq!(zombie.get_image_path(0), "actors/zombie/image_0.png");
    assert_eq!(zombie.get_image_path(2), "actors/zombie/image_2.png");
}

//! The bot decision engine, driven through whole ticks.

use combat_core::actor::{Actor, ActorConfig, ActorKind};
use combat_core::bot::{Bot, BotConfig, BotShootingState};
use combat_core::operate::{operate_bot, Moving};
use combat_core::vec2::Vec2;
use combat_core::weapon::{Weapon, WeaponConfig};

fn zombie_actor() -> Actor {
    Actor::new(ActorConfig::zombie(), 1_000)
}

fn human_actor() -> Actor {
    Actor::new(ActorConfig::human(), 1_000)
}

fn still(x: i64, y: i64) -> Moving {
    Moving {
        position: Vec2::new(x, y),
        velocity: Vec2::new(0, 0),
    }
}

#[test]
fn idle_bot_does_nothing() {
    let mut bot = Bot::new(&BotConfig::human(), 1_000, 1);
    let mut actor = human_actor();
    actor.actions.attack = true;
    operate_bot(
        &mut bot,
        &mut actor,
        Vec2::new(0, 0),
        0,
        Vec2::new(0, 0),
        None,
        None,
        &Vec::new(),
        100,
    );
    // No enemy and no teammates: last tick's intentions are cleared and
    // nothing new is intended.
    assert!(!actor.actions.attack);
    assert!(!actor.actions.movement_forward);
    assert!(!actor.actions.reload);
    assert!(actor.look_at.is_none());
}

#[test]
fn melee_bot_strikes_in_reach() {
    let mut bot = Bot::new(&BotConfig::zombie(), 1_000, 2);
    let mut actor = zombie_actor();
    // Reach is melee_distance + radius = 910 mm; the enemy stands 500 mm
    // east.
    let enemy = still(500, 0);
    operate_bot(
        &mut bot,
        &mut actor,
        Vec2::new(0, 0),
        0,
        Vec2::new(0, 0),
        None,
        Some(&enemy),
        &Vec::new(),
        100,
    );
    assert!(actor.actions.attack);
    assert!(actor.actions.movement_forward);
    assert_eq!(actor.look_at, Some(0));
}

#[test]
fn melee_bot_chases_out_of_reach() {
    let mut bot = Bot::new(&BotConfig::zombie(), 1_000, 2);
    let mut actor = zombie_actor();
    let enemy = still(0, 9_800);
    operate_bot(
        &mut bot,
        &mut actor,
        Vec2::new(0, 0),
        0,
        Vec2::new(0, 0),
        None,
        Some(&enemy),
        &Vec::new(),
        100,
    );
    assert!(!actor.actions.attack);
    assert!(actor.actions.movement_forward);
    // The intercept of a standing target is the target itself: due north.
    assert_eq!(actor.look_at, Some(1_571));
    // Full stamina and a far intercept point: sprint.
    assert!(actor.actions.sprint);
}

#[test]
fn armed_bot_out_of_range_chases_without_shooting() {
    let mut bot = Bot::new(&BotConfig::human(), 1_000, 4);
    let mut actor = human_actor();
    let weapon = Weapon::new(WeaponConfig::ak_74m());
    // Beyond shoot_distance_max (at most 9900 mm after distortion).
    let enemy = still(20_000, 0);
    operate_bot(
        &mut bot,
        &mut actor,
        Vec2::new(0, 0),
        0,
        Vec2::new(0, 0),
        Some(&weapon),
        Some(&enemy),
        &Vec::new(),
        100,
    );
    assert!(!actor.actions.attack);
    assert!(actor.actions.movement_forward);
    assert!(!bot.shooting_timer.enabled);
    assert_eq!(actor.look_at, Some(0));
    assert!(!weapon.is_trigger_pressed());
}

#[test]
fn armed_bot_in_range_acquires_target_and_prepares() {
    let mut bot = Bot::new(&BotConfig::human(), 1_000, 4);
    let mut actor = human_actor();
    let weapon = Weapon::new(WeaponConfig::ak_74m());
    // Within range (min is at most 4400 after distortion, max at least
    // 8100), facing away from the enemy.
    let enemy = still(6_000, 0);
    operate_bot(
        &mut bot,
        &mut actor,
        Vec2::new(0, 0),
        3_000,
        Vec2::new(0, 0),
        Some(&weapon),
        Some(&enemy),
        &Vec::new(),
        100,
    );
    // Target acquired: the rhythm timer runs, preparation first.
    assert!(bot.shooting_timer.enabled);
    assert_eq!(bot.shooting_state, BotShootingState::Prepare);
    // Not in shooting state yet, and facing 3000 mrad away: turn, no shot.
    assert!(!actor.actions.attack);
    assert_eq!(actor.look_at, Some(0));
    assert!(!actor.actions.movement_backward);
    assert!(!actor.actions.reload);
}

#[test]
fn armed_bot_backs_off_when_too_close() {
    let mut bot = Bot::new(&BotConfig::human(), 1_000, 4);
    let mut actor = human_actor();
    let weapon = Weapon::new(WeaponConfig::ak_74m());
    // Closer than shoot_distance_min (at least 3600 mm after distortion).
    let enemy = still(1_000, 0);
    operate_bot(
        &mut bot,
        &mut actor,
        Vec2::new(0, 0),
        0,
        Vec2::new(0, 0),
        Some(&weapon),
        Some(&enemy),
        &Vec::new(),
        100,
    );
    assert!(actor.actions.movement_backward);
    assert!(!actor.actions.movement_forward);
}

#[test]
fn disciplined_bot_only_reloads_while_unarmed() {
    let mut bot = Bot::new(&BotConfig::human(), 1_000, 4);
    let mut actor = human_actor();
    let mut weapon = Weapon::new(WeaponConfig::ak_74m());
    weapon.is_armed = false;
    let enemy = still(6_000, 0);
    operate_bot(
        &mut bot,
        &mut actor,
        Vec2::new(0, 0),
        0,
        Vec2::new(0, 0),
        Some(&weapon),
        Some(&enemy),
        &Vec::new(),
        100,
    );
    assert!(actor.actions.reload);
    assert!(!actor.actions.attack);
    assert!(!actor.actions.movement_forward);
    assert!(actor.look_at.is_none());
}

#[test]
fn silly_bot_keeps_chasing_while_unarmed() {
    let mut bot = Bot::new(&BotConfig::zombie(), 1_000, 4);
    let mut actor = zombie_actor();
    let mut weapon = Weapon::new(WeaponConfig::pm());
    weapon.is_armed = false;
    let enemy = still(6_000, 0);
    operate_bot(
        &mut bot,
        &mut actor,
        Vec2::new(0, 0),
        0,
        Vec2::new(0, 0),
        Some(&weapon),
        Some(&enemy),
        &Vec::new(),
        100,
    );
    // The reload request pends, so aiming is off the table — but a silly
    // bot still runs at its enemy.
    assert!(actor.actions.reload);
    assert!(actor.actions.movement_forward);
    assert_eq!(actor.look_at, Some(0));
}

#[test]
fn bot_eventually_attacks_a_target_it_faces() {
    let mut bot = Bot::new(&BotConfig::human(), 1_000, 9);
    let mut actor = human_actor();
    let weapon = Weapon::new(WeaponConfig::ak_74m());
    let enemy = still(6_000, 0);
    let mut attacked = false;
    let mut now = 0u64;
    while now < 60_000 {
        operate_bot(
            &mut bot,
            &mut actor,
            Vec2::new(0, 0),
            0,
            Vec2::new(0, 0),
            Some(&weapon),
            Some(&enemy),
            &Vec::new(),
            now,
        );
        if actor.actions.attack {
            attacked = true;
            assert_eq!(bot.shooting_state, BotShootingState::Shoot);
            break;
        }
        now += 10;
    }
    assert!(attacked, "facing a target in range must lead to an attack");
}

#[test]
fn crowded_bot_turns_away_from_teammates() {
    let mut bot = Bot::new(&BotConfig::zombie(), 1_000, 2);
    // Pin the dispersal tuning so the swing is exact.
    bot.config.spread = 3_000;
    bot.config.spread_force = 400;
    let mut actor = zombie_actor();
    let teammates = vec![Vec2::new(1_000, 0)];
    operate_bot(
        &mut bot,
        &mut actor,
        Vec2::new(0, 0),
        0,
        Vec2::new(0, 0),
        None,
        None,
        &teammates,
        100,
    );
    // One teammate a meter east inside a 3 m dispersal radius: closeness
    // 667 per-mille, turned away by 838 milliradians of swing.
    assert!(actor.actions.movement_forward);
    assert_eq!(actor.look_at, Some(-838));
}

#[test]
fn distant_teammates_cause_no_dispersal() {
    let mut bot = Bot::new(&BotConfig::zombie(), 1_000, 2);
    let mut actor = zombie_actor();
    let teammates = vec![Vec2::new(8_000, 0)];
    operate_bot(
        &mut bot,
        &mut actor,
        Vec2::new(0, 0),
        0,
        Vec2::new(0, 0),
        None,
        None,
        &teammates,
        100,
    );
    assert!(!actor.actions.movement_forward);
    assert!(actor.look_at.is_none());
}

#[test]
fn kind_lookup_matches_tuning_tables() {
    assert!(!ActorKind::Human.get_bot_config().is_silly);
    assert!(ActorKind::Zombie.get_bot_config().is_silly);
    assert_eq!(ActorKind::Human.get_assets_path(), "actors/human");
    assert_eq!(ActorKind::Zombie.get_assets_path(), "actors/zombie");
}

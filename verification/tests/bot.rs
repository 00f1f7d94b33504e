//! The bot tuning distortion and the shooting-rhythm state machine, run
//! with fixed seeds.

use combat_core::bot::{Bot, BotConfig, BotShootingState};

#[test]
fn distorted_config_stays_near_baseline() {
    let baseline = BotConfig::human();
    for seed in 0..20u64 {
        let bot = Bot::new(&baseline, 1_000, seed);
        let cfg = bot.config;
        assert!(!cfg.is_silly);
        assert!(cfg.spread >= baseline.spread * 900 / 1000);
        assert!(cfg.spread <= baseline.spread * 1100 / 1000);
        assert!(cfg.sprint_distance >= baseline.sprint_distance * 900 / 1000);
        assert!(cfg.sprint_distance <= baseline.sprint_distance * 1100 / 1000);
        assert!(cfg.shoot_distance_max <= baseline.shoot_distance_max * 1100 / 1000);
        // At full skill the rhythm durations are undistorted and unscaled.
        assert_eq!(cfg.shoot_prepare_duration, baseline.shoot_prepare_duration);
        assert_eq!(cfg.shoot_burst_duration, baseline.shoot_burst_duration);
        assert_eq!(cfg.shoot_interval, baseline.shoot_interval);
        assert_eq!(cfg.angular_deviation, baseline.angular_deviation);
    }
}

#[test]
fn half_skill_stretches_aim_and_rhythm() {
    let baseline = BotConfig::zombie();
    let bot = Bot::new(&baseline, 500, 7);
    assert!(bot.config.is_silly);
    assert_eq!(bot.config.angular_deviation, baseline.angular_deviation * 2);
    assert_eq!(
        bot.config.shoot_prepare_duration,
        baseline.shoot_prepare_duration * 2
    );
    assert_eq!(bot.config.shoot_interval, baseline.shoot_interval * 2);
}

#[test]
fn fresh_bot_holds_no_target() {
    let bot = Bot::new(&BotConfig::human(), 1_000, 3);
    assert_eq!(bot.shooting_state, BotShootingState::Prepare);
    assert!(!bot.shooting_timer.enabled);
    assert!(bot.enemy.is_none());
    assert!(bot.teammates.is_empty());
}

#[test]
fn gaining_a_target_arms_preparation() {
    let mut bot = Bot::new(&BotConfig::human(), 1_000, 3);
    bot.set_shooting_target(true, 1_000);
    assert_eq!(bot.shooting_state, BotShootingState::Prepare);
    assert!(bot.shooting_timer.enabled);
    // The deadline is the prepare duration, distorted by at most a tenth.
    let target = bot.shooting_timer.target;
    assert!(target >= 1_000 + bot.config.shoot_prepare_duration * 900 / 1000);
    assert!(target <= 1_000 + bot.config.shoot_prepare_duration * 1100 / 1000);
}

#[test]
fn losing_the_target_parks_the_rhythm() {
    let mut bot = Bot::new(&BotConfig::human(), 1_000, 3);
    bot.set_shooting_target(true, 0);
    let _ = bot.get_shooting_state(true, 2_000);
    bot.set_shooting_target(false, 2_500);
    assert_eq!(bot.shooting_state, BotShootingState::Prepare);
    assert!(!bot.shooting_timer.enabled);
}

#[test]
fn rhythm_follows_the_cycle() {
    // Over many simulated transitions with the seed fixed, preparation is
    // never followed directly by a pause, and a burst never falls straight
    // back to preparation.
    for seed in [0u64, 1, 2, 42, 1234] {
        let mut bot = Bot::new(&BotConfig::human(), 1_000, seed);
        bot.set_shooting_target(true, 0);
        let mut previous = bot.shooting_state;
        assert_eq!(previous, BotShootingState::Prepare);
        let mut transitions = 0u32;
        let mut first_transition_seen = false;
        let mut now = 0u64;
        while now < 300_000 {
            let state = bot.get_shooting_state(true, now);
            if state != previous {
                transitions += 1;
                match previous {
                    BotShootingState::Prepare => {
                        assert_eq!(state, BotShootingState::Shoot);
                        if !first_transition_seen {
                            first_transition_seen = true;
                        }
                    }
                    BotShootingState::Shoot => assert_eq!(state, BotShootingState::Pause),
                    BotShootingState::Pause => assert_ne!(state, BotShootingState::Pause),
                }
                previous = state;
            }
            now += 10;
        }
        assert!(transitions > 100, "the cycle must actually turn");
        assert!(first_transition_seen);
    }
}

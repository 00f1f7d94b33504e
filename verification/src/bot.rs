//! Autonomous combatants: per-bot distorted tuning, the deterministic
//! per-bot random stream, and the shooting-rhythm state machine that paces
//! bursts.

use crate::rng::{distort_u64, rng_from_seed, rng_ratio};
use crate::timer::Timer;
use vstd::prelude::*;

verus! {

/// Latest simulated instant the bot operations accept, in milliseconds.
pub const MAX_BOT_TIME: u64 = 1_000_000_000_000;

/// Chance to roll straight into another burst out of a pause, as a ratio.
pub const REPEAT_SHOOT_NUMERATOR: u32 = 3;

/// Denominator of the repeat-shoot chance.
pub const REPEAT_SHOOT_DENOMINATOR: u32 = 5;

/// Tuning of one bot. Distances are millimeters, durations milliseconds,
/// angles milliradians, fractions per-mille. A bot carries a copy distorted
/// by its own random stream, so identically configured bots fall out of
/// step.
#[derive(Clone, Copy, Debug, PartialEq, Eq, Structural)]
pub struct BotConfig {
    /// Whether the bot is of the unintelligent kind: it aims at where the
    /// target stands instead of predicting, and keeps pressing on while its
    /// weapon is unarmed.
    pub is_silly: bool,
    /// Radius of the flock-dispersal behavior.
    pub spread: i64,
    /// How hard dispersal turns the bot away from teammates, in per-mille.
    pub spread_force: u32,
    /// Bots sprint after intercept points farther than this.
    pub sprint_distance: i64,
    /// Bots sprint only above this stamina fraction, in per-mille.
    pub sprint_stamina: u32,
    /// Bots back off when the enemy is closer than this.
    pub shoot_distance_min: i64,
    /// Bots only shoot at enemies within this distance.
    pub shoot_distance_max: i64,
    /// Angular tolerance within which the bot counts as aimed.
    pub angular_deviation: i64,
    /// How long the bot settles its aim before a burst.
    pub shoot_prepare_duration: u64,
    /// How long one automatic burst lasts.
    pub shoot_burst_duration: u64,
    /// The pause between bursts.
    pub shoot_interval: u64,
}

impl BotConfig {
    /// Field bounds every distorted, skill-scaled configuration obeys.
    pub open spec fn wf(self) -> bool {
        &&& 0 < self.spread <= 40_000_000
        &&& self.spread_force <= 10_000
        &&& 0 <= self.sprint_distance <= 40_000_000
        &&& self.sprint_stamina <= 10_000
        &&& 0 <= self.shoot_distance_min <= 40_000_000
        &&& 0 <= self.shoot_distance_max <= 40_000_000
        &&& 0 <= self.angular_deviation <= 10_000_000
        &&& self.shoot_prepare_duration <= 100_000_000
        &&& self.shoot_burst_duration <= 100_000_000
        &&& self.shoot_interval <= 100_000_000
    }

    /// Tighter bounds the built-in tuning tables obey, leaving room for
    /// distortion and skill scaling to stay within `wf`.
    pub open spec fn wf_base(self) -> bool {
        &&& 10 <= self.spread <= 18_000_000
        &&& self.spread_force <= 9_000
        &&& 0 <= self.sprint_distance <= 18_000_000
        &&& self.sprint_stamina <= 9_000
        &&& 0 <= self.shoot_distance_min <= 18_000_000
        &&& 0 <= self.shoot_distance_max <= 18_000_000
        &&& 0 <= self.angular_deviation <= 10_000
        &&& 0 < self.shoot_prepare_duration <= 100_000
        &&& 0 < self.shoot_burst_duration <= 100_000
        &&& 0 < self.shoot_interval <= 100_000
    }

    /// The baseline tuning of a human-kind bot.
    pub fn human() -> (r: BotConfig)
        ensures
            r.wf(),
            r.wf_base(),
            !r.is_silly,
    {
        BotConfig {
            is_silly: false,
            spread: 3_000,
            spread_force: 400,
            sprint_distance: 8_000,
            sprint_stamina: 300,
            shoot_distance_min: 4_000,
            shoot_distance_max: 9_000,
            angular_deviation: 800,
            shoot_prepare_duration: 800,
            shoot_burst_duration: 400,
            shoot_interval: 300,
        }
    }

    /// The baseline tuning of a zombie-kind bot.
    pub fn zombie() -> (r: BotConfig)
        ensures
            r.wf(),
            r.wf_base(),
            r.is_silly,
    {
        BotConfig {
            is_silly: true,
            spread: 3_000,
            spread_force: 400,
            sprint_distance: 8_000,
            sprint_stamina: 300,
            shoot_distance_min: 2_000,
            shoot_distance_max: 8_000,
            angular_deviation: 160,
            shoot_prepare_duration: 1_500,
            shoot_burst_duration: 400,
            shoot_interval: 600,
        }
    }

    /// A per-bot copy of the baseline: every spatial field jittered by the
    /// bot's own stream, the shooting range scaled down by skill, and the
    /// aim tolerance and rhythm durations stretched for the unskilled.
    /// Skill is a per-mille fraction in `(0, 1000]`.
    pub fn clone_with(&self, skill: u32, rng: &mut rand_pcg::Pcg32) -> (r: BotConfig)
        requires
            self.wf_base(),
            0 < skill <= 1000,
        ensures
            r.wf(),
            r.is_silly == self.is_silly,
            r.shoot_burst_duration == self.shoot_burst_duration,
            r.angular_deviation == self.angular_deviation as int * 1000 / skill as int,
            r.shoot_prepare_duration == self.shoot_prepare_duration as int * 1000 / skill as int,
            r.shoot_interval == self.shoot_interval as int * 1000 / skill as int,
            self.spread as int * 900 / 1000 <= r.spread <= self.spread as int * 1100 / 1000,
            self.spread_force as int * 900 / 1000 <= r.spread_force <= self.spread_force as int
                * 1100 / 1000,
            self.sprint_distance as int * 900 / 1000 <= r.sprint_distance <= self.sprint_distance
                as int * 1100 / 1000,
            self.sprint_stamina as int * 900 / 1000 <= r.sprint_stamina <= self.sprint_stamina
                as int * 1100 / 1000,
            self.shoot_distance_min as int * 900 / 1000 <= r.shoot_distance_min
                <= self.shoot_distance_min as int * 1100 / 1000,
            r.shoot_distance_max <= self.shoot_distance_max as int * 1100 / 1000,
    {
        proof {
            let s = skill as int;
            assert((self.angular_deviation as int) * 1000 / s <= 10_000_000int
                && (self.shoot_prepare_duration as int) * 1000 / s <= 100_000_000int
                && (self.shoot_interval as int) * 1000 / s <= 100_000_000int)
                by (nonlinear_arith)
                requires
                    1 <= s <= 1000,
                    0 <= self.angular_deviation as int <= 10_000,
                    0 < self.shoot_prepare_duration as int <= 100_000,
                    0 < self.shoot_interval as int <= 100_000,
            ;
            assert(forall|x: int| 0 <= x <= 18_000_000 ==> #[trigger] (x * 1100 / 1000)
                <= 19_800_000) by (nonlinear_arith);
            assert(forall|x: int| 10 <= x ==> #[trigger] (x * 900 / 1000) >= 9)
                by (nonlinear_arith);
        }
        let spread: u64 = distort_u64(rng, self.spread as u64);
        let spread_force: u64 = distort_u64(rng, self.spread_force as u64);
        let sprint_distance: u64 = distort_u64(rng, self.sprint_distance as u64);
        let sprint_stamina: u64 = distort_u64(rng, self.sprint_stamina as u64);
        let shoot_distance_min: u64 = distort_u64(rng, self.shoot_distance_min as u64);
        let shoot_distance_max_raw: u64 = distort_u64(rng, self.shoot_distance_max as u64);
        proof {
            let m = shoot_distance_max_raw as int;
            let s = skill as int;
            assert(0 <= m * s / 1000 <= m && m * s <= 19_800_000_000int) by (nonlinear_arith)
                requires
                    0 <= m <= 19_800_000,
                    0 < s <= 1000,
            ;
        }
        let shoot_distance_max: u64 = shoot_distance_max_raw * (skill as u64) / 1000;
        BotConfig {
            is_silly: self.is_silly,
            spread: spread as i64,
            spread_force: spread_force as u32,
            sprint_distance: sprint_distance as i64,
            sprint_stamina: sprint_stamina as u32,
            shoot_distance_min: shoot_distance_min as i64,
            shoot_distance_max: shoot_distance_max as i64,
            angular_deviation: (self.angular_deviation as u64 * 1000 / (skill as u64)) as i64,
            shoot_prepare_duration: self.shoot_prepare_duration * 1000 / (skill as u64),
            shoot_burst_duration: self.shoot_burst_duration,
            shoot_interval: self.shoot_interval * 1000 / (skill as u64),
        }
    }
}

/// Where a bot stands in its burst cycle.
#[derive(Clone, Copy, Debug, PartialEq, Eq, Structural)]
pub enum BotShootingState {
    /// Settling the aim before a burst.
    Prepare,
    /// Holding the trigger.
    Shoot,
    /// Resting between bursts.
    Pause,
}

/// The rhythm table: on deadline expiry, preparation yields a burst, a
/// burst yields a pause, and a pause yields either another burst or a new
/// preparation — never preparation straight to pause, never a burst
/// straight back to preparation.
pub open spec fn spec_rhythm_step_ok(prev: BotShootingState, next: BotShootingState) -> bool {
    match prev {
        BotShootingState::Prepare => next == BotShootingState::Shoot,
        BotShootingState::Shoot => next == BotShootingState::Pause,
        BotShootingState::Pause => next == BotShootingState::Shoot || next
            == BotShootingState::Prepare,
    }
}

/// The nominal time a rhythm state lasts, before distortion.
pub open spec fn spec_rhythm_duration(
    c: BotConfig,
    state: BotShootingState,
    is_weapon_automatic: bool,
) -> int {
    match state {
        BotShootingState::Prepare => c.shoot_prepare_duration as int,
        BotShootingState::Shoot => if is_weapon_automatic {
            c.shoot_burst_duration as int
        } else {
            0
        },
        BotShootingState::Pause => c.shoot_interval as int,
    }
}

/// One autonomous combatant: its distorted tuning, the entity it hunts,
/// the teammates it disperses from, its own random stream, and the rhythm
/// state that paces its fire.
pub struct Bot {
    /// This bot's distorted tuning.
    pub config: BotConfig,
    /// The entity the bot currently hunts, if any.
    pub enemy: Option<u64>,
    /// Entities the bot disperses away from.
    pub teammates: Vec<u64>,
    /// Gates how often the bot re-reads the world.
    pub update_timer: Timer,
    /// Gates how often the bot growls.
    pub voice_timer: Timer,
    /// The bot's own deterministic random stream.
    pub rng: rand_pcg::Pcg32,
    /// Where the bot stands in its burst cycle.
    pub shooting_state: BotShootingState,
    /// When the current rhythm state expires; disabled while no target is
    /// held.
    pub shooting_timer: Timer,
}

impl Bot {
    /// Bounds every reachable bot obeys.
    pub open spec fn wf(&self) -> bool {
        self.config.wf()
    }

    /// A freshly spawned bot: tuning distorted from the baseline by the
    /// stream grown from `seed`, no enemy, no teammates, rhythm at
    /// preparation with the deadline disabled.
    pub fn new(config: &BotConfig, skill: u32, seed: u64) -> (r: Bot)
        requires
            config.wf_base(),
            0 < skill <= 1000,
        ensures
            r.wf(),
            r.config.is_silly == config.is_silly,
            r.enemy is None,
            r.teammates@ == Seq::<u64>::empty(),
            !r.update_timer.enabled,
            !r.voice_timer.enabled,
            r.shooting_state == BotShootingState::Prepare,
            !r.shooting_timer.enabled,
    {
        let mut rng = rng_from_seed(seed);
        let config = config.clone_with(skill, &mut rng);
        Bot {
            config,
            enemy: None,
            teammates: Vec::new(),
            update_timer: Timer::disabled(),
            voice_timer: Timer::disabled(),
            rng,
            shooting_state: BotShootingState::Prepare,
            shooting_timer: Timer::disabled(),
        }
    }

    /// Enters `state` and arms the rhythm deadline one distorted state
    /// duration from `now`.
    pub fn set_shooting_state(
        &mut self,
        state: BotShootingState,
        is_weapon_automatic: bool,
        now: u64,
    )
        requires
            old(self).wf(),
            now <= MAX_BOT_TIME,
        ensures
            final(self).wf(),
            final(self).shooting_state == state,
            final(self).shooting_timer.enabled,
            now as int + spec_rhythm_duration(old(self).config, state, is_weapon_automatic) * 900
                / 1000 <= final(self).shooting_timer.target as int <= now as int
                + spec_rhythm_duration(old(self).config, state, is_weapon_automatic) * 1100 / 1000,
            final(self).config == old(self).config,
            final(self).enemy == old(self).enemy,
            final(self).teammates == old(self).teammates,
            final(self).update_timer == old(self).update_timer,
            final(self).voice_timer == old(self).voice_timer,
    {
        let duration: u64 = match state {
            BotShootingState::Prepare => self.config.shoot_prepare_duration,
            BotShootingState::Shoot => if is_weapon_automatic {
                self.config.shoot_burst_duration
            } else {
                // A locked burst window would hold the attack intent across
                // rhythm changes; semi-automatic fire is already rate-limited.
                0
            },
            BotShootingState::Pause => self.config.shoot_interval,
        };
        let jittered: u64 = distort_u64(&mut self.rng, duration);
        self.shooting_state = state;
        self.shooting_timer.set(now + jittered);
    }

    /// Reads the rhythm state at `now`, first letting an expired deadline
    /// advance the machine one step of the rhythm table.
    pub fn get_shooting_state(&mut self, is_weapon_automatic: bool, now: u64) -> (r:
        BotShootingState)
        requires
            old(self).wf(),
            now <= MAX_BOT_TIME,
        ensures
            final(self).wf(),
            r == final(self).shooting_state,
            final(self).config == old(self).config,
            final(self).enemy == old(self).enemy,
            final(self).teammates == old(self).teammates,
            final(self).update_timer == old(self).update_timer,
            final(self).voice_timer == old(self).voice_timer,
            if old(self).shooting_timer.enabled && now >= old(self).shooting_timer.target {
                &&& spec_rhythm_step_ok(old(self).shooting_state, r)
                &&& final(self).shooting_timer.enabled
                &&& now as int + spec_rhythm_duration(old(self).config, r, is_weapon_automatic)
                    * 900 / 1000 <= final(self).shooting_timer.target as int <= now as int
                    + spec_rhythm_duration(old(self).config, r, is_weapon_automatic) * 1100 / 1000
            } else {
                &&& r == old(self).shooting_state
                &&& final(self).shooting_timer == old(self).shooting_timer
            },
    {
        if self.shooting_timer.is_ready_and_enabled(now) {
            let next_state = match self.shooting_state {
                BotShootingState::Prepare => BotShootingState::Shoot,
                BotShootingState::Shoot => BotShootingState::Pause,
                BotShootingState::Pause => {
                    if rng_ratio(&mut self.rng, REPEAT_SHOOT_NUMERATOR, REPEAT_SHOOT_DENOMINATOR) {
                        BotShootingState::Shoot
                    } else {
                        BotShootingState::Prepare
                    }
                },
            };
            self.set_shooting_state(next_state, is_weapon_automatic, now);
        }
        self.shooting_state
    }

    /// Notes whether the bot holds a shooting target. Gaining one resets
    /// the rhythm to preparation and arms its deadline; losing one parks
    /// the machine at preparation with the deadline disabled.
    pub fn set_shooting_target(&mut self, has_target: bool, now: u64)
        requires
            old(self).wf(),
            now <= MAX_BOT_TIME,
        ensures
            final(self).wf(),
            final(self).config == old(self).config,
            final(self).enemy == old(self).enemy,
            final(self).teammates == old(self).teammates,
            final(self).update_timer == old(self).update_timer,
            final(self).voice_timer == old(self).voice_timer,
            !old(self).shooting_timer.enabled && has_target ==> {
                &&& final(self).shooting_state == BotShootingState::Prepare
                &&& final(self).shooting_timer.enabled
                &&& now as int + old(self).config.shoot_prepare_duration as int * 900 / 1000
                    <= final(self).shooting_timer.target as int <= now as int + old(
                    self,
                ).config.shoot_prepare_duration as int * 1100 / 1000
            },
            old(self).shooting_timer.enabled && !has_target ==> {
                &&& final(self).shooting_state == BotShootingState::Prepare
                &&& !final(self).shooting_timer.enabled
            },
            old(self).shooting_timer.enabled == has_target ==> {
                &&& final(self).shooting_state == old(self).shooting_state
                &&& final(self).shooting_timer == old(self).shooting_timer
            },
    {
        let was_target: bool = self.shooting_timer.is_enabled();
        if !was_target && has_target {
            self.set_shooting_state(BotShootingState::Prepare, false, now);
        } else if was_target && !has_target {
            self.shooting_state = BotShootingState::Prepare;
            self.shooting_timer.disable();
        }
    }
}

} // verus!

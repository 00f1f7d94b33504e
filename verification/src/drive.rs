//! The weapon-drive step: one call per armed combatant per tick turns the
//! intended actions into weapon operations — trigger release, reload
//! start, reload completion, trigger pull — and, on a successful shot,
//! describes the projectiles to spawn.

use crate::actor::ActorActions;
use crate::ballistics::{deviate_direction, generate_velocity, spec_velocity_std,
    FRAGMENT_DEVIATION_MRAD};
use crate::math::{spec_cos_pm, spec_scale_pm, spec_sin_pm};
use crate::vec2::Vec2;
use crate::weapon::{spec_complete_reloading, spec_fire, spec_reload, Weapon, WeaponFireResult,
    WeaponView, MAX_TIME};
use vstd::prelude::*;

verus! {

/// Distance from a combatant's center to its muzzle, in millimeters.
pub const BARREL_LENGTH: i64 = 1_150;

/// One projectile to be spawned by a later step.
#[derive(Clone, Copy, Debug, PartialEq, Eq, Structural)]
pub struct ProjectileSpawn {
    /// Launch position: the muzzle, in millimeters.
    pub position: Vec2,
    /// Launch direction, in milliradians.
    pub direction: i64,
    /// Launch velocity, in millimeters per second.
    pub velocity: u64,
}

/// What one weapon-drive tick did, for the feedback and spawning steps.
#[derive(Debug)]
pub struct WeaponStepOutcome {
    /// A reload began this tick.
    pub reload_started: bool,
    /// A reload finished this tick.
    pub reload_completed: bool,
    /// The hammer fell on an empty chamber, audibly.
    pub dry_fired: bool,
    /// A shot left the barrel.
    pub fired: bool,
    /// The projectiles of that shot, one per fragment.
    pub projectiles: Vec<ProjectileSpawn>,
}

/// The weapon state after the optional trigger release.
pub open spec fn spec_after_trigger(w: WeaponView, attacking: bool) -> WeaponView {
    if !attacking {
        WeaponView { is_trigger_pressed: false, ..w }
    } else {
        w
    }
}

/// The muzzle position: one barrel length from the center, along the
/// facing direction.
pub open spec fn spec_muzzle(position: Vec2, direction: int) -> Vec2 {
    Vec2 {
        x: (position.x + spec_scale_pm(BARREL_LENGTH as int, spec_cos_pm(direction))) as i64,
        y: (position.y + spec_scale_pm(BARREL_LENGTH as int, spec_sin_pm(direction))) as i64,
    }
}

/// Drives one equipped weapon by the combatant's intended actions at
/// instant `now`: releases the trigger unless attacking; starts a reload
/// when one is requested and none is in flight (and then does nothing else
/// this tick); completes a due reload; and, when attacking, pulls the
/// trigger — a successful shot yields one projectile per fragment, each
/// direction jittered cumulatively and each velocity jittered around the
/// muzzle velocity.
pub fn drive_weapon(
    actions: ActorActions,
    weapon: &mut Weapon,
    position: Vec2,
    direction: i64,
    rng: &mut rand_pcg::Pcg32,
    now: u64,
) -> (r: WeaponStepOutcome)
    requires
        old(weapon).wf(),
        position.spec_in_world(),
        -3_142 <= direction <= 3_142,
        now <= MAX_TIME,
    ensures
        final(weapon).wf(),
        final(weapon).config == old(weapon).config,
        ({
            let c = old(weapon).config;
            let w1 = spec_after_trigger(old(weapon)@, actions.attack);
            &&& r.reload_started == (actions.reload && old(weapon)@.reloading is None)
            &&& r.reload_started ==> {
                &&& final(weapon)@ == spec_reload(c, w1, now as int, c.reloading_time as int)
                &&& !r.reload_completed
                &&& !r.dry_fired
                &&& !r.fired
                &&& r.projectiles@.len() == 0
            }
            &&& !r.reload_started ==> {
                let completing = w1.reloading is Some && now as int >= w1.next_time;
                let w2 = if completing {
                    spec_complete_reloading(c, w1, now as int)
                } else {
                    w1
                };
                &&& r.reload_completed == completing
                &&& !actions.attack ==> final(weapon)@ == w2 && !r.dry_fired && !r.fired
                    && r.projectiles@.len() == 0
                &&& actions.attack ==> {
                    let step = spec_fire(c, w2, now as int);
                    &&& final(weapon)@ == step.0
                    &&& r.fired == (step.1 == WeaponFireResult::Fire)
                    &&& r.dry_fired == (step.1 == WeaponFireResult::Empty
                        && (!w2.is_trigger_pressed || (w2.is_cocked && !step.0.is_cocked)))
                    &&& !r.fired ==> r.projectiles@.len() == 0
                    &&& r.fired ==> {
                        &&& r.projectiles@.len() == c.projectile.fragments as int
                        &&& forall|k: int|
                            0 <= k < r.projectiles@.len() ==> (#[trigger] r.projectiles@[k]).position
                                == spec_muzzle(position, direction as int)
                        &&& forall|k: int|
                            0 <= k < r.projectiles@.len() ==> direction as int
                                - FRAGMENT_DEVIATION_MRAD as int * (k + 1) <= (
                            #[trigger] r.projectiles@[k]).direction as int <= direction as int
                                + FRAGMENT_DEVIATION_MRAD as int * (k + 1)
                        &&& forall|k: int|
                            0 <= k < r.projectiles@.len() ==> c.muzzle_velocity as int - 6
                                * spec_velocity_std(c) <= (#[trigger] r.projectiles@[k]).velocity
                                as int <= c.muzzle_velocity as int + 6 * spec_velocity_std(c)
                    }
                }
            }
        }),
{
    let ghost c = old(weapon).config;
    let mut outcome = WeaponStepOutcome {
        reload_started: false,
        reload_completed: false,
        dry_fired: false,
        fired: false,
        projectiles: Vec::new(),
    };

    if !actions.attack {
        weapon.release_trigger();
    }

    if actions.reload && !weapon.is_reloading() {
        weapon.reload(now, weapon.config.reloading_time);
        outcome.reload_started = true;
        return outcome;
    }

    if weapon.is_reloading() && weapon.is_ready(now) {
        weapon.complete_reloading(now);
        outcome.reload_completed = true;
    }

    if actions.attack {
        let was_cocked: bool = weapon.is_cocked();
        let was_trigger_pressed: bool = weapon.is_trigger_pressed();

        match weapon.fire(now) {
            WeaponFireResult::Empty => {
                if !was_trigger_pressed || (was_cocked && !weapon.is_cocked()) {
                    outcome.dry_fired = true;
                }
            },
            WeaponFireResult::NotReady => {},
            WeaponFireResult::Fire => {
                outcome.fired = true;
                let ghost completed_before = outcome.reload_completed;
                let muzzle: Vec2 = position.add(Vec2::from_length(BARREL_LENGTH, direction));
                let fragments: u32 = weapon.config.projectile.fragments;
                let mut current_direction: i64 = direction;
                let mut k: u32 = 0;
                while k < fragments
                    invariant
                        !outcome.reload_started,
                        outcome.reload_completed == completed_before,
                        !outcome.dry_fired,
                        outcome.fired,
                        c == weapon.config,
                        c.wf(),
                        fragments == c.projectile.fragments,
                        k <= fragments <= 1_000,
                        -3_142 <= direction <= 3_142,
                        direction - FRAGMENT_DEVIATION_MRAD * (k as i64) <= current_direction
                            <= direction + FRAGMENT_DEVIATION_MRAD * (k as i64),
                        outcome.projectiles@.len() == k as int,
                        forall|j: int|
                            0 <= j < k as int ==> (#[trigger] outcome.projectiles@[j]).position
                                == muzzle,
                        forall|j: int|
                            0 <= j < k as int ==> direction as int - FRAGMENT_DEVIATION_MRAD as int
                                * (j + 1) <= (#[trigger] outcome.projectiles@[j]).direction as int
                                <= direction as int + FRAGMENT_DEVIATION_MRAD as int * (j + 1),
                        forall|j: int|
                            0 <= j < k as int ==> c.muzzle_velocity as int - 6 * spec_velocity_std(
                                c,
                            ) <= (#[trigger] outcome.projectiles@[j]).velocity as int
                                <= c.muzzle_velocity as int + 6 * spec_velocity_std(c),
                    decreases fragments - k,
                {
                    current_direction = deviate_direction(rng, current_direction);
                    let velocity: u64 = generate_velocity(&weapon.config, rng);
                    outcome.projectiles.push(
                        ProjectileSpawn { position: muzzle, direction: current_direction, velocity },
                    );
                    k = k + 1;
                }
            },
        }
    }

    outcome
}

} // verus!

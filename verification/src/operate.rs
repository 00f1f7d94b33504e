//! The bot decision engine: one call per bot per tick reads the perceived
//! world — own transform and velocity, the tracked enemy, teammates, the
//! equipped weapon — and writes the intended actions and look target.

use crate::actor::{Actor, ActorActions};
use crate::ballistics::{find_intercept, spec_find_intercept};
use crate::bot::{spec_rhythm_step_ok, Bot, BotConfig, BotShootingState};
use crate::math::{angle_difference, div_trunc, isqrt, norm_angle, spec_angle_difference,
    spec_atan2_mrad, spec_div_trunc, spec_isqrt, spec_norm_angle, is_isqrt};
use crate::vec2::Vec2;
use crate::weapon::Weapon;
use vstd::prelude::*;

verus! {

/// The most teammates one dispersal pass reads.
pub const MAX_TEAMMATES: usize = 1000;

/// A target's kinematic snapshot: where it stands and how it moves.
#[derive(Clone, Copy, Debug, PartialEq, Eq, Structural)]
pub struct Moving {
    /// Position, in millimeters.
    pub position: Vec2,
    /// Velocity, in millimeters per second.
    pub velocity: Vec2,
}

impl Moving {
    /// Bounds every perceived target obeys.
    pub open spec fn wf(self) -> bool {
        &&& self.position.spec_in_world()
        &&& self.velocity.spec_is_velocity()
    }
}

/// An actor with the last tick's intentions cleared.
pub open spec fn spec_reset_actor(a: Actor) -> Actor {
    Actor {
        movement: Vec2 { x: 0i64, y: 0i64 },
        actions: ActorActions {
            movement_forward: false,
            movement_backward: false,
            sprint: false,
            attack: false,
            reload: false,
        },
        look_at: None,
        ..a
    }
}

/// Whether heading `direction` points within `deviation` of the direction
/// from `pos` toward `target`.
pub open spec fn spec_is_aimed(direction: int, pos: Vec2, target: Vec2, deviation: int) -> bool {
    let delta = spec_angle_difference(
        direction,
        spec_atan2_mrad(target.y - pos.y, target.x - pos.x),
    );
    (if delta >= 0 {
        delta
    } else {
        -delta
    }) < deviation
}

/// Whether the bot's heading counts as aimed at `target`.
pub fn is_aimed_at(direction: i64, pos: Vec2, target: Vec2, deviation: i64) -> (r: bool)
    requires
        pos.spec_in_range(),
        target.spec_in_range(),
        -3_142 <= direction <= 3_142,
        0 <= deviation <= 10_000_000,
    ensures
        r == spec_is_aimed(direction as int, pos, target, deviation as int),
{
    let angle: i64 = pos.angle_to(target);
    let delta: i64 = angle_difference(direction, angle);
    let magnitude: i64 = if delta >= 0 {
        delta
    } else {
        -delta
    };
    magnitude < deviation
}

/// The point a chasing bot runs for: the intercept of its own current
/// speed against the target's motion.
pub open spec fn spec_chase_meet(pos: Vec2, velocity: Vec2, enemy: Moving) -> Vec2 {
    spec_find_intercept(pos, spec_isqrt(velocity.spec_len_sq()), enemy.position, enemy.velocity)
}

/// The chase step: run (and possibly sprint) for the intercept point,
/// facing it; reports whether the intercept point is already within the
/// dispersal radius, which cancels spreading out.
pub open spec fn spec_chase(cfg: BotConfig, a: Actor, pos: Vec2, velocity: Vec2, enemy: Moving)
    -> (Actor, bool) {
    let meet = spec_chase_meet(pos, velocity, enemy);
    let near = pos.spec_distance_sq(meet) < cfg.spread * cfg.spread;
    let sprint = a.actions.sprint || (a.stamina > cfg.sprint_stamina && pos.spec_distance_sq(meet)
        >= cfg.sprint_distance * cfg.sprint_distance && !a.actions.reload);
    (
        Actor {
            actions: ActorActions { sprint, movement_forward: true, ..a.actions },
            look_at: Some(spec_atan2_mrad(meet.y - pos.y, meet.x - pos.x) as i64),
            ..a
        },
        near,
    )
}

/// Chases the enemy: sprints for far intercept points on enough stamina,
/// faces the intercept point and pushes forward. Reports whether the
/// intercept point lies within the dispersal radius.
pub fn chase(cfg: &BotConfig, actor: &mut Actor, pos: Vec2, velocity: Vec2, enemy: &Moving) -> (r:
    bool)
    requires
        cfg.wf(),
        old(actor).wf(),
        pos.spec_in_world(),
        velocity.spec_is_velocity(),
        enemy.wf(),
    ensures
        final(actor).wf(),
        (*final(actor), r) == spec_chase(*cfg, *old(actor), pos, velocity, *enemy),
{
    proof {
        assert(0 <= velocity.x as int * velocity.x as int <= 40_000_000_000int && 0 <= velocity.y
            as int * velocity.y as int <= 40_000_000_000int) by (nonlinear_arith)
            requires
                -200_000 <= velocity.x as int <= 200_000,
                -200_000 <= velocity.y as int <= 200_000,
        ;
    }
    let len_sq: i64 = velocity.x * velocity.x + velocity.y * velocity.y;
    let speed: u64 = isqrt(len_sq as u64);
    proof {
        assert(speed as int <= 300_000) by (nonlinear_arith)
            requires
                is_isqrt(len_sq as int, speed as int),
                0 <= len_sq as int <= 80_000_000_000int,
        ;
    }
    let meet: Vec2 = find_intercept(pos, speed, enemy.position, enemy.velocity);
    let near: bool = pos.is_close(meet, cfg.spread);
    if actor.stamina > cfg.sprint_stamina && pos.is_far(meet, cfg.sprint_distance)
        && !actor.actions.reload {
        actor.actions.sprint = true;
    }
    let angle: i64 = pos.angle_to(meet);
    actor.look_at = Some(angle);
    actor.actions.movement_forward = true;
    near
}

/// The melee step: strike when the enemy stands within arm's reach plus
/// the own body radius, else chase it.
pub open spec fn spec_melee(cfg: BotConfig, a: Actor, pos: Vec2, velocity: Vec2, enemy: Moving)
    -> (Actor, bool) {
    let reach = a.config.melee_distance + a.config.radius;
    if pos.spec_distance_sq(enemy.position) < reach * reach {
        (
            Actor {
                actions: ActorActions { attack: true, movement_forward: true, ..a.actions },
                look_at: Some(
                    spec_atan2_mrad(
                        enemy.position.y - pos.y,
                        enemy.position.x - pos.x,
                    ) as i64,
                ),
                ..a
            },
            true,
        )
    } else {
        spec_chase(cfg, a, pos, velocity, enemy)
    }
}

/// Fights an enemy bare-handed: faces and strikes it within melee reach,
/// chases it otherwise. Reports whether spreading out is moot this tick.
pub fn attack_enemy_melee(
    cfg: &BotConfig,
    actor: &mut Actor,
    pos: Vec2,
    velocity: Vec2,
    enemy: &Moving,
) -> (r: bool)
    requires
        cfg.wf(),
        old(actor).wf(),
        pos.spec_in_world(),
        velocity.spec_is_velocity(),
        enemy.wf(),
    ensures
        final(actor).wf(),
        (*final(actor), r) == spec_melee(*cfg, *old(actor), pos, velocity, *enemy),
{
    let reach: i64 = actor.config.melee_distance + actor.config.radius;
    if pos.is_close(enemy.position, reach) {
        let angle: i64 = pos.angle_to(enemy.position);
        actor.look_at = Some(angle);
        actor.actions.attack = true;
        actor.actions.movement_forward = true;
        true
    } else {
        chase(cfg, actor, pos, velocity, enemy)
    }
}

/// The point an armed bot aims at: a silly bot points at the target
/// itself, a predictive bot at the ballistic intercept of its muzzle
/// velocity against the target's motion.
pub open spec fn spec_aim_point(cfg: BotConfig, pos: Vec2, muzzle_velocity: int, enemy: Moving)
    -> Vec2 {
    if cfg.is_silly {
        enemy.position
    } else {
        spec_find_intercept(pos, muzzle_velocity, enemy.position, enemy.velocity)
    }
}

/// Fights an enemy with a ranged weapon. An unarmed weapon begets a reload
/// request — and, for a disciplined bot, nothing else this tick. In range
/// and free to aim, the bot backs off when too close, holds or resets its
/// rhythm, and either attacks (rhythm says shoot, aim is true) or turns
/// toward the aim point; out of range it drops the rhythm target and
/// chases. Reports whether spreading out is moot this tick.
pub fn attack_enemy_armed(
    bot: &mut Bot,
    actor: &mut Actor,
    pos: Vec2,
    direction: i64,
    velocity: Vec2,
    weapon: &Weapon,
    enemy: &Moving,
    now: u64,
) -> (r: bool)
    requires
        old(bot).wf(),
        old(actor).wf(),
        pos.spec_in_world(),
        -3_142 <= direction <= 3_142,
        velocity.spec_is_velocity(),
        weapon.wf(),
        enemy.wf(),
        now <= crate::bot::MAX_BOT_TIME,
    ensures
        final(bot).wf(),
        final(actor).wf(),
        final(bot).config == old(bot).config,
        final(bot).enemy == old(bot).enemy,
        final(bot).teammates == old(bot).teammates,
        final(bot).update_timer == old(bot).update_timer,
        final(bot).voice_timer == old(bot).voice_timer,
        final(actor).actions.reload == (old(actor).actions.reload || !weapon@.is_armed),
        !weapon@.is_armed && !old(bot).config.is_silly ==> r == false && *final(bot) == *old(bot)
            && *final(actor) == (Actor {
            actions: ActorActions { reload: true, ..old(actor).actions },
            ..*old(actor)
        }),
        (weapon@.is_armed || old(bot).config.is_silly) && spec_engaged_can_aim(
            old(bot).config,
            old(actor).actions.reload || !weapon@.is_armed,
            pos,
            *enemy,
        ) ==> {
            let aim = spec_aim_point(
                old(bot).config,
                pos,
                weapon.config.muzzle_velocity as int,
                *enemy,
            );
            let aimed = spec_is_aimed(
                direction as int,
                pos,
                aim,
                old(bot).config.angular_deviation as int,
            );
            &&& r == true
            &&& final(actor).actions.movement_backward == (old(actor).actions.movement_backward
                || pos.spec_distance_sq(enemy.position) < old(bot).config.shoot_distance_min
                    * old(bot).config.shoot_distance_min)
            &&& final(actor).actions.movement_forward == old(actor).actions.movement_forward
            &&& final(actor).actions.sprint == old(actor).actions.sprint
            &&& final(actor).actions.attack == (old(actor).actions.attack
                || (final(bot).shooting_state == BotShootingState::Shoot && aimed))
            &&& final(actor).look_at == (if aimed {
                old(actor).look_at
            } else {
                Some(spec_atan2_mrad(aim.y - pos.y, aim.x - pos.x) as i64)
            })
            &&& final(actor).movement == old(actor).movement
            &&& final(actor).stamina == old(actor).stamina
            &&& final(bot).shooting_timer.enabled
            &&& old(bot).shooting_timer.enabled && now < old(bot).shooting_timer.target
                ==> final(bot).shooting_state == old(bot).shooting_state
            &&& old(bot).shooting_timer.enabled && now >= old(bot).shooting_timer.target
                ==> spec_rhythm_step_ok(old(bot).shooting_state, final(bot).shooting_state)
            &&& !old(bot).shooting_timer.enabled ==> (final(bot).shooting_state
                == BotShootingState::Prepare || final(bot).shooting_state
                == BotShootingState::Shoot)
        },
        (weapon@.is_armed || old(bot).config.is_silly) && !spec_engaged_can_aim(
            old(bot).config,
            old(actor).actions.reload || !weapon@.is_armed,
            pos,
            *enemy,
        ) ==> {
            &&& (*final(actor), r) == spec_chase(
                old(bot).config,
                Actor {
                    actions: ActorActions {
                        reload: old(actor).actions.reload || !weapon@.is_armed,
                        ..old(actor).actions
                    },
                    ..*old(actor)
                },
                pos,
                velocity,
                *enemy,
            )
            &&& !final(bot).shooting_timer.enabled
            &&& final(bot).shooting_state == (if old(bot).shooting_timer.enabled {
                BotShootingState::Prepare
            } else {
                old(bot).shooting_state
            })
        },
{
    if !weapon.is_armed() {
        actor.actions.reload = true;
        if !bot.config.is_silly {
            return false;
        }
    }

    let can_aim: bool = !actor.actions.reload && pos.is_close(
        enemy.position,
        bot.config.shoot_distance_max,
    );
    if can_aim {
        if pos.is_close(enemy.position, bot.config.shoot_distance_min) {
            actor.actions.movement_backward = true;
        }
        bot.set_shooting_target(true, now);
        let state: BotShootingState = bot.get_shooting_state(weapon.config.is_automatic, now);
        let aim: Vec2 = if bot.config.is_silly {
            enemy.position
        } else {
            find_intercept(pos, weapon.config.muzzle_velocity, enemy.position, enemy.velocity)
        };
        let aimed: bool = is_aimed_at(direction, pos, aim, bot.config.angular_deviation);
        if state == BotShootingState::Shoot && aimed {
            actor.actions.attack = true;
        } else {
            // Turning is held once aimed: fighting recoil drift would make
            // the aim too precise, and turning while firing would do the
            // same.
            if !aimed {
                let angle: i64 = pos.angle_to(aim);
                actor.look_at = Some(angle);
            }
        }
        true
    } else {
        bot.set_shooting_target(false, now);
        let cfg: BotConfig = bot.config;
        chase(&cfg, actor, pos, velocity, enemy)
    }
}

/// Whether an engaged bot may aim: it has no reload pending and the enemy
/// stands within its shooting range.
pub open spec fn spec_engaged_can_aim(
    cfg: BotConfig,
    reload_pending: bool,
    pos: Vec2,
    enemy: Moving,
) -> bool {
    !reload_pending && pos.spec_distance_sq(enemy.position) < cfg.shoot_distance_max
        * cfg.shoot_distance_max
}

/// The dispersal weight of one teammate: per-mille of how deep inside the
/// dispersal radius it stands; zero outside the radius.
pub open spec fn spec_spread_weight(pos: Vec2, mate: Vec2, spread: int) -> int {
    let d2 = pos.spec_distance_sq(mate);
    if d2 < spread * spread {
        1000 - spec_isqrt(d2) * 1000 / spread
    } else {
        0
    }
}

/// The weighted position sums and total weight over the teammates.
pub open spec fn spec_spread_sums(pos: Vec2, mates: Seq<Vec2>, spread: int) -> (int, int, int)
    decreases mates.len(),
{
    if mates.len() == 0 {
        (0, 0, 0)
    } else {
        let prior = spec_spread_sums(pos, mates.drop_last(), spread);
        let w = spec_spread_weight(pos, mates.last(), spread);
        (prior.0 + mates.last().x * w, prior.1 + mates.last().y * w, prior.2 + w)
    }
}

/// The dispersal step: when the weighted centroid of nearby teammates
/// falls inside the dispersal radius, turn away from it in proportion to
/// closeness and push forward; close quarters also cancel sprinting.
pub open spec fn spec_spread_out(
    cfg: BotConfig,
    a: Actor,
    pos: Vec2,
    direction: int,
    mates: Seq<Vec2>,
) -> Actor {
    let sums = spec_spread_sums(pos, mates, cfg.spread as int);
    if sums.2 == 0 {
        a
    } else {
        let centroid = Vec2 {
            x: spec_div_trunc(sums.0, sums.2) as i64,
            y: spec_div_trunc(sums.1, sums.2) as i64,
        };
        let d2 = pos.spec_distance_sq(centroid);
        if d2 < cfg.spread * cfg.spread {
            let look = match a.look_at {
                Some(l) => l as int,
                None => direction,
            };
            let turn = spec_angle_difference(
                look,
                spec_atan2_mrad(pos.y - centroid.y, pos.x - centroid.x),
            );
            let closeness = 1000 - spec_isqrt(d2) * 1000 / cfg.spread as int;
            let swing = spec_div_trunc(turn * closeness * cfg.spread_force as int, 1_000_000);
            Actor {
                look_at: Some(spec_norm_angle(look + swing) as i64),
                actions: ActorActions {
                    movement_forward: true,
                    sprint: a.actions.sprint && !(closeness > 750),
                    ..a.actions
                },
                ..a
            }
        } else {
            a
        }
    }
}

/// Disperses from teammates: teammates inside the dispersal radius pull a
/// weighted centroid; standing too close to it turns the bot away and
/// pushes it forward, and very close quarters cancel sprinting.
pub fn spread_out(
    cfg: &BotConfig,
    actor: &mut Actor,
    pos: Vec2,
    direction: i64,
    teammates: &Vec<Vec2>,
)
    requires
        cfg.wf(),
        old(actor).wf(),
        pos.spec_in_world(),
        -3_142 <= direction <= 3_142,
        teammates@.len() <= MAX_TEAMMATES as int,
        forall|i: int|
            0 <= i < teammates@.len() ==> (#[trigger] teammates@[i]).spec_in_world(),
    ensures
        final(actor).wf(),
        *final(actor) == spec_spread_out(*cfg, *old(actor), pos, direction as int, teammates@),
{
    let ghost mates = teammates@;
    let spread: i64 = cfg.spread;
    let mut sum_x: i64 = 0;
    let mut sum_y: i64 = 0;
    let mut sum_w: i64 = 0;
    let mut i: usize = 0;
    while i < teammates.len()
        invariant
            cfg.wf(),
            spread == cfg.spread,
            pos.spec_in_world(),
            i <= teammates@.len() <= MAX_TEAMMATES as int,
            teammates@ == mates,
            forall|j: int| 0 <= j < mates.len() ==> (#[trigger] mates[j]).spec_in_world(),
            (sum_x as int, sum_y as int, sum_w as int) == spec_spread_sums(
                pos,
                mates.take(i as int),
                spread as int,
            ),
            0 <= sum_w <= 1000 * i,
            -10_000_000 * (sum_w as int) <= sum_x <= 10_000_000 * (sum_w as int),
            -10_000_000 * (sum_w as int) <= sum_y <= 10_000_000 * (sum_w as int),
        decreases teammates@.len() - i,
    {
        let mate: Vec2 = teammates[i];
        let d2: i64 = pos.distance_squared(mate);
        proof {
            assert(0 <= spread as int * spread as int <= 1_600_000_000_000_000int)
                by (nonlinear_arith)
                requires
                    0 < spread as int <= 40_000_000,
            ;
        }
        if d2 < spread * spread {
            let dist: u64 = isqrt(d2 as u64);
            proof {
                assert((dist as int) < (spread as int) && (dist as int) * 1000
                    <= 40_000_000_000int) by (nonlinear_arith)
                    requires
                        is_isqrt(d2 as int, dist as int),
                        0 <= d2 as int,
                        (d2 as int) < (spread as int) * (spread as int),
                        0 < spread as int <= 40_000_000,
                ;
                assert(0 < 1000 - (dist as int) * 1000 / (spread as int) <= 1000)
                    by (nonlinear_arith)
                    requires
                        0 <= dist as int && (dist as int) < (spread as int),
                        0 < spread as int,
                ;
            }
            let weight: i64 = 1000 - (dist as i64) * 1000 / spread;
            proof {
                assert(-10_000_000 * (weight as int) <= mate.x as int * weight as int
                    <= 10_000_000 * (weight as int) && -10_000_000 * (weight as int) <= mate.y
                    as int * weight as int <= 10_000_000 * (weight as int)) by (nonlinear_arith)
                    requires
                        -10_000_000 <= mate.x as int <= 10_000_000,
                        -10_000_000 <= mate.y as int <= 10_000_000,
                        0 < weight as int <= 1000,
                ;
                assert(mates.take(i as int + 1).drop_last() =~= mates.take(i as int));
                assert(mates.take(i as int + 1).last() == mates[i as int]);
                assert(spec_spread_weight(pos, mates[i as int], spread as int) == weight as int);
            }
            sum_x = sum_x + mate.x * weight;
            sum_y = sum_y + mate.y * weight;
            sum_w = sum_w + weight;
        } else {
            proof {
                assert(mates.take(i as int + 1).drop_last() =~= mates.take(i as int));
                assert(mates.take(i as int + 1).last() == mates[i as int]);
                assert(spec_spread_weight(pos, mates[i as int], spread as int) == 0);
            }
        }
        i = i + 1;
    }
    proof {
        assert(mates.take(mates.len() as int) =~= mates);
    }

    if sum_w == 0 {
        return ;
    }
    proof {
        let sw = sum_w as int;
        let sx = sum_x as int;
        let sy = sum_y as int;
        assert(-10_000_000 <= spec_div_trunc(sx, sw) <= 10_000_000 && -10_000_000
            <= spec_div_trunc(sy, sw) <= 10_000_000) by (nonlinear_arith)
            requires
                0 < sw,
                -10_000_000 * sw <= sx <= 10_000_000 * sw,
                -10_000_000 * sw <= sy <= 10_000_000 * sw,
        ;
    }
    let centroid = Vec2 { x: div_trunc(sum_x, sum_w), y: div_trunc(sum_y, sum_w) };
    let d2: i64 = pos.distance_squared(centroid);
    proof {
        assert(0 <= spread as int * spread as int <= 1_600_000_000_000_000int)
            by (nonlinear_arith)
            requires
                0 < spread as int <= 40_000_000,
        ;
    }
    if d2 < spread * spread {
        let look: i64 = match actor.look_at {
            Some(l) => l,
            None => direction,
        };
        let away: i64 = centroid.angle_to(pos);
        let turn: i64 = angle_difference(look, away);
        let dist: u64 = isqrt(d2 as u64);
        proof {
            assert((dist as int) < (spread as int) && (dist as int) * 1000
                <= 40_000_000_000int) by (nonlinear_arith)
                requires
                    is_isqrt(d2 as int, dist as int),
                    0 <= d2 as int,
                    (d2 as int) < (spread as int) * (spread as int),
                    0 < spread as int <= 40_000_000,
            ;
            assert(0 < 1000 - (dist as int) * 1000 / (spread as int) <= 1000) by (nonlinear_arith)
                requires
                    0 <= dist as int && (dist as int) < (spread as int),
                    0 < spread as int,
            ;
        }
        let closeness: i64 = 1000 - (dist as i64) * 1000 / spread;
        proof {
            assert(-40_000_000_000_000int <= turn as int * closeness as int * cfg.spread_force
                as int <= 40_000_000_000_000int && -4_000_000_000int <= turn as int * closeness
                as int <= 4_000_000_000int) by (nonlinear_arith)
                requires
                    -4_000 <= turn as int <= 4_000,
                    0 < closeness as int <= 1000,
                    0 <= cfg.spread_force as int <= 10_000,
            ;
        }
        let swing: i64 = div_trunc(turn * closeness * (cfg.spread_force as i64), 1_000_000);
        actor.look_at = Some(norm_angle(look + swing));
        actor.actions.movement_forward = true;
        if closeness > 750 {
            actor.actions.sprint = false;
        }
    }
}

/// One decision tick of one bot: clears the last tick's intentions, fights
/// or chases the tracked enemy — armed or bare-handed — and, unless the
/// fight already settled the bot's place, disperses from teammates.
pub fn operate_bot(
    bot: &mut Bot,
    actor: &mut Actor,
    position: Vec2,
    direction: i64,
    velocity: Vec2,
    weapon: Option<&Weapon>,
    enemy: Option<&Moving>,
    teammates: &Vec<Vec2>,
    now: u64,
)
    requires
        old(bot).wf(),
        old(actor).wf(),
        position.spec_in_world(),
        -3_142 <= direction <= 3_142,
        velocity.spec_is_velocity(),
        match weapon {
            Some(w) => w.wf(),
            None => true,
        },
        match enemy {
            Some(e) => e.wf(),
            None => true,
        },
        teammates@.len() <= MAX_TEAMMATES as int,
        forall|i: int| 0 <= i < teammates@.len() ==> (#[trigger] teammates@[i]).spec_in_world(),
        now <= crate::bot::MAX_BOT_TIME,
    ensures
        final(bot).wf(),
        final(actor).wf(),
        final(bot).config == old(bot).config,
        final(bot).enemy == old(bot).enemy,
        final(bot).teammates == old(bot).teammates,
        final(bot).update_timer == old(bot).update_timer,
        final(bot).voice_timer == old(bot).voice_timer,
        enemy is None ==> *final(actor) == spec_spread_out(
            old(bot).config,
            spec_reset_actor(*old(actor)),
            position,
            direction as int,
            teammates@,
        ) && *final(bot) == *old(bot),
        enemy is Some && weapon is None ==> {
            let step = spec_melee(
                old(bot).config,
                spec_reset_actor(*old(actor)),
                position,
                velocity,
                *enemy->Some_0,
            );
            &&& *final(bot) == *old(bot)
            &&& *final(actor) == (if step.1 {
                step.0
            } else {
                spec_spread_out(old(bot).config, step.0, position, direction as int, teammates@)
            })
        },
        enemy is Some && weapon is Some && !(weapon->Some_0)@.is_armed
            && !old(bot).config.is_silly ==> *final(bot) == *old(bot) && *final(actor)
            == spec_spread_out(
            old(bot).config,
            Actor {
                actions: ActorActions {
                    reload: true,
                    ..spec_reset_actor(*old(actor)).actions
                },
                ..spec_reset_actor(*old(actor))
            },
            position,
            direction as int,
            teammates@,
        ),
        enemy is Some && weapon is Some && ((weapon->Some_0)@.is_armed
            || old(bot).config.is_silly) && spec_engaged_can_aim(
            old(bot).config,
            !(weapon->Some_0)@.is_armed,
            position,
            *enemy->Some_0,
        ) ==> {
            let w = weapon->Some_0;
            let e = *enemy->Some_0;
            let aim = spec_aim_point(
                old(bot).config,
                position,
                w.config.muzzle_velocity as int,
                e,
            );
            let aimed = spec_is_aimed(
                direction as int,
                position,
                aim,
                old(bot).config.angular_deviation as int,
            );
            &&& final(actor).actions.movement_backward == (position.spec_distance_sq(e.position)
                < old(bot).config.shoot_distance_min * old(bot).config.shoot_distance_min)
            &&& !final(actor).actions.movement_forward
            &&& !final(actor).actions.sprint
            &&& final(actor).actions.reload == !w@.is_armed
            &&& final(actor).actions.attack == (final(bot).shooting_state
                == BotShootingState::Shoot && aimed)
            &&& final(actor).look_at == (if aimed {
                None::<i64>
            } else {
                Some(spec_atan2_mrad(aim.y - position.y, aim.x - position.x) as i64)
            })
            &&& final(bot).shooting_timer.enabled
            &&& old(bot).shooting_timer.enabled && now < old(bot).shooting_timer.target
                ==> final(bot).shooting_state == old(bot).shooting_state
            &&& old(bot).shooting_timer.enabled && now >= old(bot).shooting_timer.target
                ==> spec_rhythm_step_ok(old(bot).shooting_state, final(bot).shooting_state)
            &&& !old(bot).shooting_timer.enabled ==> (final(bot).shooting_state
                == BotShootingState::Prepare || final(bot).shooting_state
                == BotShootingState::Shoot)
        },
        enemy is Some && weapon is Some && ((weapon->Some_0)@.is_armed
            || old(bot).config.is_silly) && !spec_engaged_can_aim(
            old(bot).config,
            !(weapon->Some_0)@.is_armed,
            position,
            *enemy->Some_0,
        ) ==> {
            let step = spec_chase(
                old(bot).config,
                Actor {
                    actions: ActorActions {
                        reload: !(weapon->Some_0)@.is_armed,
                        ..spec_reset_actor(*old(actor)).actions
                    },
                    ..spec_reset_actor(*old(actor))
                },
                position,
                velocity,
                *enemy->Some_0,
            );
            &&& *final(actor) == (if step.1 {
                step.0
            } else {
                spec_spread_out(old(bot).config, step.0, position, direction as int, teammates@)
            })
            &&& !final(bot).shooting_timer.enabled
            &&& final(bot).shooting_state == (if old(bot).shooting_timer.enabled {
                BotShootingState::Prepare
            } else {
                old(bot).shooting_state
            })
        },
{
    actor.reset_actions();
    let mut disperse: bool = true;
    match enemy {
        Some(e) => {
            match weapon {
                Some(w) => {
                    let settled: bool = attack_enemy_armed(
                        bot,
                        actor,
                        position,
                        direction,
                        velocity,
                        w,
                        e,
                        now,
                    );
                    if settled {
                        disperse = false;
                    }
                },
                None => {
                    let cfg: BotConfig = bot.config;
                    let settled: bool = attack_enemy_melee(&cfg, actor, position, velocity, e);
                    if settled {
                        disperse = false;
                    }
                },
            }
        },
        None => {},
    }
    if disperse {
        let cfg: BotConfig = bot.config;
        spread_out(&cfg, actor, position, direction, teammates);
    }
}


} // verus!

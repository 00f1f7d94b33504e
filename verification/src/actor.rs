//! Combatants: their immutable per-kind tuning, their per-tick intended
//! actions, and their stamina bookkeeping.

use crate::vec2::Vec2;
use vstd::prelude::*;

verus! {

/// The kind of a combatant; behavior differences are data on the shared
/// config shape, never subclassing.
#[derive(Clone, Copy, Debug, PartialEq, Eq, Structural)]
pub enum ActorKind {
    Human,
    Zombie,
}

impl ActorKind {
    /// The baseline bot tuning of this kind.
    pub fn get_bot_config(self) -> (r: crate::bot::BotConfig)
        ensures
            r.wf(),
            r.wf_base(),
            r.is_silly == (self == ActorKind::Zombie),
    {
        match self {
            Self::Human => crate::bot::BotConfig::human(),
            Self::Zombie => crate::bot::BotConfig::zombie(),
        }
    }

    /// Root of the sprite assets of this kind.
    pub fn get_assets_path(self) -> (r: &'static str)
        ensures
            r@ == match self {
                ActorKind::Human => "actors/human"@,
                ActorKind::Zombie => "actors/zombie"@,
            },
    {
        match self {
            Self::Human => "actors/human",
            Self::Zombie => "actors/zombie",
        }
    }
}

/// A sentinel pain threshold that no damage fraction reaches: pain
/// disabled.
pub const PAIN_DISABLED: u32 = 4_294_967_295;

/// Immutable tuning shared by all combatants of one kind. Distances are
/// millimeters, durations milliseconds, angles milliradians, velocities
/// millimeters per second, masses grams and fractions per-mille.
#[derive(Clone, Copy, Debug, PartialEq, Eq, Structural)]
pub struct ActorConfig {
    /// The kind this tuning belongs to.
    pub kind: ActorKind,
    /// Walking velocity.
    pub movement_velocity: i64,
    /// Turning velocity, in milliradians per second.
    pub rotation_velocity: i64,
    /// Velocity multiplier while sprinting, in per-mille.
    pub sprint_factor: u32,
    /// Time a resting combatant needs to regain a full stamina bar.
    pub stamina: u64,
    /// Full health, in milli-units.
    pub health: u32,
    /// Damage fraction that triggers a pain reaction, in per-mille.
    pub pain_threshold: u32,
    /// Body radius.
    pub radius: i64,
    /// Body mass.
    pub mass: u64,
    /// Damage of one melee strike, in milli-units.
    pub melee_damage: u32,
    /// Reach of a melee strike, beyond the body radius.
    pub melee_distance: i64,
    /// Angular half-width of a melee strike.
    pub melee_distance_angular: i64,
    /// Shortest time between melee strikes.
    pub melee_interval: u64,
    /// Reload speed factor, in per-mille.
    pub reloading_speed: u32,
    /// Recoil sensitivity, in per-mille.
    pub recoil_factor: u32,
}

impl ActorConfig {
    /// Field bounds every well-formed configuration obeys.
    pub open spec fn wf(self) -> bool {
        &&& 0 < self.movement_velocity <= 200_000
        &&& 0 < self.rotation_velocity <= 100_000
        &&& 0 < self.stamina <= 1_000_000_000
        &&& 0 <= self.radius <= 100_000
        &&& 0 <= self.melee_distance <= 1_000_000
        &&& 0 <= self.melee_distance_angular <= 3_142
        &&& self.melee_interval <= 1_000_000_000
        &&& self.sprint_factor <= 10_000
    }

    /// The tuning of a human combatant.
    pub fn human() -> (r: ActorConfig)
        ensures
            r.wf(),
            r.kind == ActorKind::Human,
    {
        ActorConfig {
            kind: ActorKind::Human,
            movement_velocity: 2_800,
            rotation_velocity: 3_500,
            sprint_factor: 1_600,
            stamina: 16_000,
            health: 9_000,
            pain_threshold: 20,
            radius: 250,
            mass: 85_000,
            melee_damage: 562,
            melee_distance: 700,
            melee_distance_angular: 1_257,
            melee_interval: 600,
            reloading_speed: 600,
            recoil_factor: 1_000,
        }
    }

    /// The tuning of a zombie combatant: slower, duller, numb to pain,
    /// heavier-handed on recoil.
    pub fn zombie() -> (r: ActorConfig)
        ensures
            r.wf(),
            r.kind == ActorKind::Zombie,
    {
        ActorConfig {
            kind: ActorKind::Zombie,
            movement_velocity: 924,
            rotation_velocity: 1_400,
            sprint_factor: 1_600,
            stamina: 10_000,
            health: 5_400,
            pain_threshold: PAIN_DISABLED,
            radius: 210,
            mass: 70_000,
            melee_damage: 562,
            melee_distance: 700,
            melee_distance_angular: 1_257,
            melee_interval: 600,
            reloading_speed: 1_200,
            recoil_factor: 6_000,
        }
    }

    /// Path of the body sprite for the given grip suffix; the suffix is
    /// clamped to the sprites the kind ships.
    pub fn get_image_path(&self, suffix: u8) -> (r: &'static str)
        ensures
            r@ == spec_image_path(self.kind, suffix as int),
    {
        match self.kind {
            ActorKind::Human => if suffix <= 1 {
                "actors/human/image_1.png"
            } else {
                "actors/human/image_2.png"
            },
            ActorKind::Zombie => if suffix == 0 {
                "actors/zombie/image_0.png"
            } else if suffix == 1 {
                "actors/zombie/image_1.png"
            } else {
                "actors/zombie/image_2.png"
            },
        }
    }
}

/// The body sprite path of a kind, for a grip suffix clamped to the
/// sprites the kind ships: humans have sprites 1 and 2, zombies 0 to 2.
pub open spec fn spec_image_path(kind: ActorKind, suffix: int) -> Seq<char> {
    match kind {
        ActorKind::Human => if suffix <= 1 {
            "actors/human/image_1.png"@
        } else {
            "actors/human/image_2.png"@
        },
        ActorKind::Zombie => if suffix == 0 {
            "actors/zombie/image_0.png"@
        } else if suffix == 1 {
            "actors/zombie/image_1.png"@
        } else {
            "actors/zombie/image_2.png"@
        },
    }
}

/// The set of actions a combatant intends for the current tick.
#[derive(Clone, Copy, Debug, PartialEq, Eq, Structural)]
pub struct ActorActions {
    /// Step along the facing direction.
    pub movement_forward: bool,
    /// Step against the facing direction.
    pub movement_backward: bool,
    /// Move at sprint velocity.
    pub sprint: bool,
    /// Fire or strike.
    pub attack: bool,
    /// Start a reload.
    pub reload: bool,
}

impl ActorActions {
    /// No action intended.
    pub fn empty() -> (r: ActorActions)
        ensures
            r == spec_empty_actions(),
    {
        ActorActions {
            movement_forward: false,
            movement_backward: false,
            sprint: false,
            attack: false,
            reload: false,
        }
    }
}

/// The empty action set.
pub open spec fn spec_empty_actions() -> ActorActions {
    ActorActions {
        movement_forward: false,
        movement_backward: false,
        sprint: false,
        attack: false,
        reload: false,
    }
}

/// One combatant's mutable state, beside its transform and weapon.
pub struct Actor {
    /// The combatant's immutable tuning.
    pub config: ActorConfig,
    /// Skill scalar in per-mille; affects stamina regeneration and, for
    /// bots, their distorted tuning.
    pub skill: u32,
    /// Stamina fraction in per-mille.
    pub stamina: u32,
    /// Intended movement of the current tick.
    pub movement: Vec2,
    /// Intended actions of the current tick.
    pub actions: ActorActions,
    /// The direction the combatant wants to face, in milliradians, if any.
    pub look_at: Option<i64>,
    /// The instant before which no melee strike may land, in milliseconds.
    pub melee_next: u64,
}

impl Actor {
    /// Bounds every reachable combatant obeys; a held look target is a
    /// normalized angle.
    pub open spec fn wf(&self) -> bool {
        &&& self.config.wf()
        &&& 0 < self.skill <= 10_000
        &&& self.stamina <= 1_000
        &&& match self.look_at {
            Some(a) => -3_142 <= a <= 3_142,
            None => true,
        }
    }

    /// A freshly spawned combatant: full stamina, nothing intended.
    pub fn new(config: ActorConfig, skill: u32) -> (r: Actor)
        requires
            config.wf(),
            0 < skill <= 10_000,
        ensures
            r.wf(),
            r.config == config,
            r.skill == skill,
            r.stamina == 1000,
            r.movement == (Vec2 { x: 0i64, y: 0i64 }),
            r.actions == spec_empty_actions(),
            r.look_at is None,
            r.melee_next == 0,
    {
        Actor {
            config,
            skill,
            stamina: 1000,
            movement: Vec2::zero(),
            actions: ActorActions::empty(),
            look_at: None,
            melee_next: 0,
        }
    }

    /// Clears everything the last tick intended: movement, actions and the
    /// look target.
    pub fn reset_actions(&mut self)
        ensures
            final(self).movement == (Vec2 { x: 0i64, y: 0i64 }),
            final(self).actions == spec_empty_actions(),
            final(self).look_at is None,
            final(self).config == old(self).config,
            final(self).skill == old(self).skill,
            final(self).stamina == old(self).stamina,
            final(self).melee_next == old(self).melee_next,
    {
        self.movement = Vec2::zero();
        self.actions = ActorActions::empty();
        self.look_at = None;
    }

    /// Advances the stamina bar over `delta` milliseconds: a full bar takes
    /// `stamina * skill` milliseconds of rest; sprinting drains at the same
    /// rate; moving without sprinting regains at a rate scaled down by half
    /// the current bar.
    pub fn update_stamina(&mut self, delta: u64)
        requires
            old(self).wf(),
            delta <= 1_000_000,
        ensures
            final(self).wf(),
            final(self).stamina == spec_update_stamina(
                old(self).config,
                old(self).skill as int,
                old(self).stamina as int,
                !(old(self).movement == (Vec2 { x: 0i64, y: 0i64 })),
                old(self).actions.sprint,
                delta as int,
            ),
            *final(self) == (Actor { stamina: final(self).stamina, ..*old(self) }),
    {
        proof {
            assert(0 <= self.config.stamina as int * self.skill as int <= 10_000_000_000_000int)
                by (nonlinear_arith)
                requires
                    0 < self.config.stamina as int <= 1_000_000_000,
                    0 < self.skill as int <= 10_000,
            ;
        }
        let scaled: u64 = self.config.stamina * (self.skill as u64) / 1000;
        let full_duration: u64 = if scaled == 0 {
            1
        } else {
            scaled
        };
        proof {
            assert(0 <= delta as int * 1000 / (full_duration as int) <= 1_000_000_000int)
                by (nonlinear_arith)
                requires
                    0 <= delta <= 1_000_000,
                    1 <= full_duration as int,
            ;
        }
        let base_change: u64 = delta * 1000 / full_duration;
        let moving: bool = !self.movement.is_zero();

        if moving && self.actions.sprint {
            let drained: u32 = if base_change >= self.stamina as u64 {
                0
            } else {
                self.stamina - (base_change as u32)
            };
            self.stamina = drained;
        } else {
            let gain: u64 = if moving {
                proof {
                    assert(0 <= base_change as int * self.stamina as int / 2000
                        <= 500_000_000int) by (nonlinear_arith)
                        requires
                            0 <= base_change as int <= 1_000_000_000int,
                            0 <= self.stamina <= 1000,
                    ;
                }
                base_change * (self.stamina as u64) / 2000
            } else {
                base_change
            };
            let raised: u64 = self.stamina as u64 + gain;
            self.stamina = if raised > 1000 {
                1000
            } else {
                raised as u32
            };
        }
    }
}

/// The stamina bar after `delta` milliseconds: the bar moves by
/// `delta / (stamina * skill)` of the whole — downward while sprinting,
/// at a pace scaled by half the bar while walking — and clamps to
/// `[0, 1000]`.
pub open spec fn spec_update_stamina(
    config: ActorConfig,
    skill: int,
    stamina: int,
    moving: bool,
    sprinting: bool,
    delta: int,
) -> int {
    let scaled = config.stamina as int * skill / 1000;
    let full_duration = if scaled == 0 {
        1
    } else {
        scaled
    };
    let base_change = delta * 1000 / full_duration;
    if moving && sprinting {
        if base_change >= stamina {
            0
        } else {
            stamina - base_change
        }
    } else {
        let gain = if moving {
            base_change * stamina / 2000
        } else {
            base_change
        };
        if stamina + gain > 1000 {
            1000
        } else {
            stamina + gain
        }
    }
}

/// Marker for the combatant entity the local player steers.
#[derive(Clone, Copy, Debug, Default, PartialEq, Eq, Structural)]
pub struct Player;

/// Marker for the sprite entity that renders a combatant's weapon.
#[derive(Clone, Copy, Debug, Default, PartialEq, Eq, Structural)]
pub struct ActorWeaponSprite;

} // verus!

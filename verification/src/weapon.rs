//! The weapon state machine: ammunition, cocking and arming, reload
//! progress and fire-rate gating for one equipped weapon.
//!
//! Times are milliseconds of simulated time, masses are grams (projectile
//! masses milligrams), velocities millimeters per second, angles
//! milliradians and normalized fractions per-mille.

use crate::math::{is_isqrt, lemma_isqrt_exists, spec_isqrt, isqrt, lerp_i64,
    progress_per_mille, spec_lerp, spec_progress};
use vstd::prelude::*;
use vstd::string::StringExecFns;

verus! {

/// Extra delay before a re-armed weapon may fire again, in milliseconds:
/// the time to chamber a round after a magazine change.
pub const ARMING_DURATION: u64 = 300;

/// Latest simulated instant the weapon operations accept, in milliseconds.
pub const MAX_TIME: u64 = 1_000_000_000_000;

/// Longest reload duration the weapon operations accept, in milliseconds.
pub const MAX_RELOADING_TIME: u64 = 1_000_000_000;

/// How a weapon holds on to the shooter.
#[derive(Clone, Copy, Debug, PartialEq, Eq, Structural)]
pub enum WeaponGrip {
    OneHand,
    TwoHands,
    TwoHandsWithButt,
}

impl WeaponGrip {
    /// Recoil scale of the grip, in per-mille: a braced grip absorbs more.
    pub fn recoil_factor(&self) -> (r: u32)
        ensures
            r == self.spec_recoil_factor(),
    {
        match self {
            Self::OneHand => 500,
            Self::TwoHands => 750,
            Self::TwoHandsWithButt => 1000,
        }
    }

    /// The per-mille recoil scale of the grip.
    pub open spec fn spec_recoil_factor(self) -> int {
        match self {
            Self::OneHand => 500,
            Self::TwoHands => 750,
            Self::TwoHandsWithButt => 1000,
        }
    }

    /// Index of the actor sprite that matches the grip.
    pub fn actor_image_suffix(&self) -> (r: u8)
        ensures
            r == match self {
                Self::OneHand => 1u8,
                Self::TwoHands => 2u8,
                Self::TwoHandsWithButt => 2u8,
            },
    {
        match self {
            Self::OneHand => 1,
            Self::TwoHands => 2,
            Self::TwoHandsWithButt => 2,
        }
    }
}

/// What a trigger pull produced.
#[derive(Clone, Copy, Debug, PartialEq, Eq, Structural)]
pub enum WeaponFireResult {
    /// The weapon is gated: still cycling, semi-automatic with the trigger
    /// held, or mid-reload.
    NotReady,
    /// The hammer fell on an empty chamber.
    Empty,
    /// A round left the barrel.
    Fire,
}

/// Immutable data of a projectile model.
#[derive(Clone, Copy, Debug, PartialEq, Eq, Structural)]
pub struct ProjectileConfig {
    /// Mass of one projectile, in milligrams.
    pub mass: u64,
    /// Pellets launched per shot; more than one for multi-pellet loads.
    pub fragments: u32,
}

/// Immutable data shared by all weapons of one model.
#[derive(Clone, Copy, Debug, PartialEq, Eq)]
pub struct WeaponConfig {
    /// The weapon model's name, as the asset folders spell it.
    pub name: &'static str,
    /// Mass of the empty weapon, in grams.
    pub mass: u64,
    /// Muzzle velocity, in millimeters per second.
    pub muzzle_velocity: u64,
    /// Angular deviation of a launched projectile, in milliradians.
    pub deviation: u64,
    /// Rounds per minute the action can cycle.
    pub fire_rate: u32,
    /// Whether holding the trigger keeps firing.
    pub is_automatic: bool,
    /// The projectile the weapon launches.
    pub projectile: ProjectileConfig,
    /// Magazine size; zero means the weapon needs no ammunition.
    pub ammo_capacity: u8,
    /// Nominal reload duration, in milliseconds.
    pub reloading_time: u64,
    /// Whether reloading adds one round at a time instead of swapping the
    /// whole magazine.
    pub partial_reloading: bool,
    /// How the weapon is held.
    pub grip: WeaponGrip,
}

impl WeaponConfig {
    /// Field bounds every well-formed configuration obeys.
    pub open spec fn wf(self) -> bool {
        &&& 0 < self.fire_rate <= 60_000
        &&& 0 < self.mass <= 100_000
        &&& self.muzzle_velocity <= 10_000_000
        &&& self.projectile.mass <= 1_000_000
        &&& 0 < self.projectile.fragments <= 1_000
        &&& self.reloading_time <= MAX_RELOADING_TIME
        &&& self.deviation <= 3_141
    }

    /// Milliseconds between two cycles of the action.
    pub open spec fn spec_fire_interval(self) -> int {
        60_000int / self.fire_rate as int
    }

    /// Milliseconds between two cycles of the action.
    pub fn fire_interval(&self) -> (r: u64)
        requires
            self.wf(),
        ensures
            r == self.spec_fire_interval(),
            r <= 60_000,
    {
        60_000 / (self.fire_rate as u64)
    }

    /// Fraction of the magazine that `ammo` rounds fill, in per-mille; a
    /// weapon without a magazine always counts as full.
    pub open spec fn spec_ammo_normalized(self, ammo: int) -> int {
        if self.ammo_capacity == 0 {
            1000
        } else {
            ammo * 1000 / self.ammo_capacity as int
        }
    }

    /// Fraction of the magazine that `ammo` rounds fill, in per-mille.
    pub fn get_ammo_normalized(&self, ammo: u8) -> (r: u32)
        ensures
            r == self.spec_ammo_normalized(ammo as int),
            ammo <= self.ammo_capacity ==> r <= 1000,
    {
        if self.ammo_capacity == 0 {
            1000
        } else {
            proof {
                let a = ammo as int;
                let c = self.ammo_capacity as int;
                assert(a * 1000 / c <= 1000 * 255) by (nonlinear_arith)
                    requires
                        0 < c <= 255,
                        0 <= a <= 255,
                ;
                assert(a <= c ==> a * 1000 / c <= 1000) by (nonlinear_arith)
                    requires
                        0 < c,
                        0 <= a,
                ;
            }
            (ammo as u32) * 1000 / (self.ammo_capacity as u32)
        }
    }

    /// Path of the weapon's sprite.
    pub fn get_image_path(&self) -> (r: String)
        ensures
            r@ == "weapons/"@ + self.name@ + "/image.png"@,
    {
        let mut path: String = String::new();
        path.append("weapons/");
        path.append(self.name);
        path.append("/image.png");
        path
    }

    /// Mass of the weapon with a full magazine, in grams.
    pub fn get_mass_with_full_ammo(&self) -> (r: u64)
        requires
            self.wf(),
        ensures
            r == self.mass as int + (self.projectile.mass as int * self.ammo_capacity as int)
                / 1000,
    {
        proof {
            assert(self.projectile.mass as int * self.ammo_capacity as int <= 255_000_000int)
                by (nonlinear_arith)
                requires
                    self.projectile.mass <= 1_000_000 && self.ammo_capacity <= 255,
            ;
        }
        self.mass + self.projectile.mass * (self.ammo_capacity as u64) / 1000
    }
}

/// The mutable state of one equipped weapon, as mathematical values.
pub ghost struct WeaponView {
    /// Whether the weapon can cycle at all; cleared by running dry on a
    /// magazine weapon, restored by a completed reload.
    pub is_armed: bool,
    /// Whether the action is ready to strike without re-chambering.
    pub is_cocked: bool,
    /// Whether the trigger is latched from an earlier pull.
    pub is_trigger_pressed: bool,
    /// Duration of the reload in flight, if one is.
    pub reloading: Option<int>,
    /// Rounds in the magazine.
    pub ammo: int,
    /// The instant before which firing and reload completion are gated.
    pub next_time: int,
}

/// One equipped weapon: its immutable configuration and its firing state.
pub struct Weapon {
    /// The weapon model's immutable data.
    pub config: WeaponConfig,
    /// Whether the weapon can cycle at all.
    pub is_armed: bool,
    /// Whether the action is ready to strike without re-chambering.
    pub is_cocked: bool,
    /// Whether the trigger is latched from an earlier pull.
    pub is_trigger_pressed: bool,
    /// Duration of the reload in flight, if one is, in milliseconds.
    pub reloading: Option<u64>,
    /// Rounds in the magazine.
    pub ammo: u8,
    /// The instant before which firing and completion are gated, in
    /// milliseconds.
    pub next_time: u64,
}

impl View for Weapon {
    type V = WeaponView;

    open spec fn view(&self) -> WeaponView {
        WeaponView {
            is_armed: self.is_armed,
            is_cocked: self.is_cocked,
            is_trigger_pressed: self.is_trigger_pressed,
            reloading: match self.reloading {
                Some(d) => Some(d as int),
                None => None,
            },
            ammo: self.ammo as int,
            next_time: self.next_time as int,
        }
    }
}

/// State bounds every reachable weapon obeys.
pub open spec fn weapon_state_wf(c: WeaponConfig, w: WeaponView) -> bool {
    &&& 0 <= w.ammo <= c.ammo_capacity as int
    &&& 0 <= w.next_time <= MAX_TIME as int + MAX_RELOADING_TIME as int
    &&& match w.reloading {
        Some(d) => 0 <= d <= MAX_RELOADING_TIME as int,
        None => true,
    }
}

/// The state and result of a trigger pull at instant `now`.
pub open spec fn spec_fire(c: WeaponConfig, w: WeaponView, now: int) -> (WeaponView,
    WeaponFireResult) {
    if !c.is_automatic && w.is_trigger_pressed {
        (w, WeaponFireResult::NotReady)
    } else {
        let pressed = WeaponView { is_trigger_pressed: true, ..w };
        if now >= w.next_time {
            let cycled = WeaponView { next_time: now + c.spec_fire_interval(), ..pressed };
            if c.ammo_capacity == 0 {
                (cycled, WeaponFireResult::Fire)
            } else if w.ammo > 0 {
                (WeaponView { ammo: cycled.ammo - 1, ..cycled }, WeaponFireResult::Fire)
            } else {
                (
                    WeaponView {
                        is_cocked: false,
                        is_armed: cycled.is_armed && c.partial_reloading,
                        ..cycled
                    },
                    WeaponFireResult::Empty,
                )
            }
        } else {
            (pressed, WeaponFireResult::NotReady)
        }
    }
}

/// The state after a reload request at instant `now` with duration
/// `duration`: a no-op while a reload is in flight; otherwise a partial
/// reloader with a full magazine gives up one round and a full reloader
/// empties, and the reload deadline starts.
pub open spec fn spec_reload(c: WeaponConfig, w: WeaponView, now: int, duration: int)
    -> WeaponView {
    if w.reloading is Some {
        w
    } else {
        let ammo = if c.partial_reloading {
            if w.ammo == c.ammo_capacity as int && w.ammo > 0 {
                w.ammo - 1
            } else {
                w.ammo
            }
        } else {
            0
        };
        WeaponView { ammo, reloading: Some(duration), next_time: now + duration, ..w }
    }
}

/// The state after reload completion at instant `now`: a no-op unless a
/// reload is in flight; otherwise restores the cocked state, adds one round
/// (partial) or fills the magazine (full), and re-arms an un-armed weapon
/// with an extra arming delay.
pub open spec fn spec_complete_reloading(c: WeaponConfig, w: WeaponView, now: int) -> WeaponView {
    if w.reloading is None {
        w
    } else {
        let ammo = if c.partial_reloading {
            if w.ammo < c.ammo_capacity as int {
                w.ammo + 1
            } else {
                w.ammo
            }
        } else {
            c.ammo_capacity as int
        };
        let rearmed = WeaponView { is_cocked: true, reloading: None, ammo, ..w };
        if !w.is_armed {
            WeaponView { is_armed: true, next_time: now + ARMING_DURATION as int, ..rearmed }
        } else {
            rearmed
        }
    }
}

impl Weapon {
    /// State bounds every reachable weapon obeys, and the bounds of its
    /// configuration.
    pub open spec fn wf(&self) -> bool {
        &&& self.config.wf()
        &&& weapon_state_wf(self.config, self@)
    }

    /// A freshly equipped weapon: full magazine, armed, cocked, idle.
    pub fn new(config: WeaponConfig) -> (r: Weapon)
        requires
            config.wf(),
        ensures
            r.wf(),
            r.config == config,
            r@ == (WeaponView {
                is_armed: true,
                is_cocked: true,
                is_trigger_pressed: false,
                reloading: None::<int>,
                ammo: config.ammo_capacity as int,
                next_time: 0int,
            }),
    {
        Weapon {
            config,
            is_armed: true,
            is_cocked: true,
            is_trigger_pressed: false,
            reloading: None,
            ammo: config.ammo_capacity,
            next_time: 0,
        }
    }

    /// Pulls the trigger at instant `now`. Safe to call every tick while
    /// the trigger is held; a semi-automatic weapon refuses until the
    /// trigger is released, a gated weapon refuses until `next_time` has
    /// passed, a dry weapon un-cocks (and un-arms, unless it reloads
    /// partially).
    pub fn fire(&mut self, now: u64) -> (r: WeaponFireResult)
        requires
            old(self).wf(),
            now <= MAX_TIME,
        ensures
            final(self).wf(),
            final(self).config == old(self).config,
            (final(self)@, r) == spec_fire(old(self).config, old(self)@, now as int),
    {
        if !self.config.is_automatic && self.is_trigger_pressed {
            return WeaponFireResult::NotReady;
        }

        self.is_trigger_pressed = true;

        if now >= self.next_time {
            self.next_time = now + self.config.fire_interval();

            if self.config.ammo_capacity == 0 {
                WeaponFireResult::Fire
            } else if self.ammo > 0 {
                self.ammo = self.ammo - 1;
                WeaponFireResult::Fire
            } else {
                if !self.config.partial_reloading {
                    self.is_armed = false;
                }
                self.is_cocked = false;
                WeaponFireResult::Empty
            }
        } else {
            WeaponFireResult::NotReady
        }
    }

    /// Clears the trigger latch; unconditional and idempotent.
    pub fn release_trigger(&mut self)
        ensures
            final(self).config == old(self).config,
            final(self)@ == (WeaponView { is_trigger_pressed: false, ..old(self)@ }),
            old(self).wf() ==> final(self).wf(),
    {
        self.is_trigger_pressed = false;
    }

    /// Requests a reload at instant `now`, to complete after `duration`
    /// milliseconds; a no-op while another reload is in flight.
    pub fn reload(&mut self, now: u64, duration: u64)
        requires
            old(self).wf(),
            now <= MAX_TIME,
            duration <= MAX_RELOADING_TIME,
        ensures
            final(self).wf(),
            final(self).config == old(self).config,
            final(self)@ == spec_reload(old(self).config, old(self)@, now as int, duration as int),
    {
        if self.reloading.is_none() {
            if self.config.partial_reloading {
                if self.ammo == self.config.ammo_capacity && self.ammo > 0 {
                    self.ammo = self.ammo - 1;
                }
            } else {
                self.ammo = 0;
            }

            self.reloading = Some(duration);
            self.next_time = now + duration;
        }
    }

    /// Completes the reload in flight at instant `now`; a no-op if none is.
    /// A full reloader leaves with exactly a full magazine.
    pub fn complete_reloading(&mut self, now: u64)
        requires
            old(self).wf(),
            now <= MAX_TIME,
        ensures
            final(self).wf(),
            final(self).config == old(self).config,
            final(self)@ == spec_complete_reloading(old(self).config, old(self)@, now as int),
            old(self)@.reloading is Some && !old(self).config.partial_reloading
                ==> final(self)@.ammo == old(self).config.ammo_capacity as int,
    {
        if self.reloading.is_some() {
            self.is_cocked = true;
            self.reloading = None;

            if self.config.partial_reloading {
                if self.ammo < self.config.ammo_capacity {
                    self.ammo = self.ammo + 1;
                }
            } else {
                self.ammo = self.config.ammo_capacity;
            }

            if !self.is_armed {
                self.is_armed = true;
                self.next_time = now + ARMING_DURATION;
            }
        }
    }

    /// Mass of the weapon with its current magazine, in grams.
    pub fn get_mass(&self) -> (r: u64)
        requires
            self.wf(),
        ensures
            r == spec_weapon_mass(self.config, self@.ammo),
    {
        proof {
            assert(self.config.projectile.mass as int * self@.ammo <= 255_000_000int)
                by (nonlinear_arith)
                requires
                    self.config.projectile.mass <= 1_000_000 && 0 <= self@.ammo <= 255,
            ;
        }
        self.config.mass + self.config.projectile.mass * (self.ammo as u64) / 1000
    }

    /// Felt recoil of the next shot, in milli-units. Recoil grows as the
    /// magazine empties: a lighter weapon absorbs less momentum.
    pub fn get_recoil(&self) -> (r: u64)
        requires
            self.wf(),
        ensures
            r == spec_recoil(self.config, self@.ammo),
    {
        proof {
            assert(self.config.muzzle_velocity as int * self.config.projectile.mass as int
                <= 10_000_000_000_000int) by (nonlinear_arith)
                requires
                    self.config.muzzle_velocity <= 10_000_000 && self.config.projectile.mass
                        <= 1_000_000,
            ;
        }
        let momentum: u64 = self.config.muzzle_velocity * self.config.projectile.mass;
        let mass: u64 = self.get_mass();
        proof {
            let loaded = self.config.projectile.mass as int * self@.ammo;
            assert(0 <= loaded / 1000 <= 255_000int) by (nonlinear_arith)
                requires
                    loaded == self.config.projectile.mass as int * self@.ammo,
                    self.config.projectile.mass <= 1_000_000,
                    0 <= self@.ammo <= 255,
            ;
            lemma_mass_quarter_root_bounds(mass as int);
        }
        let mass_quarter_root: u64 = isqrt(isqrt(mass * 1_000_000_000));
        proof {
            let q = momentum as int / mass_quarter_root as int;
            assert(0 <= q <= 10_000_000_000_000int) by (nonlinear_arith)
                requires
                    0 <= momentum as int <= 10_000_000_000_000int,
                    1 <= mass_quarter_root as int,
                    q == momentum as int / mass_quarter_root as int,
            ;
            lemma_isqrt_exists(q);
            assert(spec_isqrt(q) <= 4_000_000int) by (nonlinear_arith)
                requires
                    is_isqrt(q, spec_isqrt(q)),
                    q <= 10_000_000_000_000int,
            ;
        }
        let raw: u64 = isqrt(momentum / mass_quarter_root);
        let grip_factor: u64 = self.config.grip.recoil_factor() as u64;
        proof {
            assert(raw as int * 13 * grip_factor as int <= 52_000_000_000_000int)
                by (nonlinear_arith)
                requires
                    0 <= raw as int <= 4_000_000int && 0 <= grip_factor as int <= 1000,
            ;
        }
        raw * 13 * grip_factor / 1000
    }

    /// How full the weapon reads at instant `now`, in per-mille. Outside a
    /// reload this is the magazine fraction; during one it sweeps with
    /// reload progress — toward the one added round for a partial
    /// reloader, from empty to full for a full reloader.
    pub fn get_ammo_normalized(&self, now: u64) -> (r: u32)
        requires
            self.wf(),
            now <= MAX_TIME,
        ensures
            r == spec_ammo_normalized_at(self.config, self@, now as int),
    {
        if let Some(reloading_duration) = self.reloading {
            let start: u64 = if self.next_time >= reloading_duration {
                self.next_time - reloading_duration
            } else {
                0
            };
            let progress: u32 = progress_per_mille(start, reloading_duration, now);

            if self.config.partial_reloading {
                let before: u32 = self.config.get_ammo_normalized(self.ammo);
                let target_ammo: u32 = self.ammo as u32 + 1;
                let after: u32 = if self.config.ammo_capacity == 0 {
                    1000
                } else {
                    proof {
                        let a = target_ammo as int;
                        let c = self.config.ammo_capacity as int;
                        assert(0 <= a * 1000 / c <= 1000 * 256) by (nonlinear_arith)
                            requires
                                0 < c <= 255,
                                0 <= a <= 256,
                        ;
                    }
                    target_ammo * 1000 / (self.config.ammo_capacity as u32)
                };
                proof {
                    let b = before as int;
                    let c = self.config.ammo_capacity as int;
                    assert(0 <= b <= 256_000) by (nonlinear_arith)
                        requires
                            b == self.config.spec_ammo_normalized(self@.ammo),
                            b == if c == 0 {
                                1000int
                            } else {
                                self@.ammo * 1000 / c
                            },
                            0 <= self@.ammo <= 255,
                            0 <= c <= 255,
                    ;
                    crate::math::lemma_lerp_bounds(before as int, after as int, progress as int);
                }
                lerp_i64(before as i64, after as i64, progress) as u32
            } else {
                progress
            }
        } else {
            self.config.get_ammo_normalized(self.ammo)
        }
    }

    /// Whether the action is ready to strike without re-chambering.
    pub fn is_cocked(&self) -> (r: bool)
        ensures
            r == self@.is_cocked,
    {
        self.is_cocked
    }

    /// Whether the trigger is latched from an earlier pull.
    pub fn is_trigger_pressed(&self) -> (r: bool)
        ensures
            r == self@.is_trigger_pressed,
    {
        self.is_trigger_pressed
    }

    /// Whether the weapon can cycle at all.
    pub fn is_armed(&self) -> (r: bool)
        ensures
            r == self@.is_armed,
    {
        self.is_armed
    }

    /// Whether a reload is in flight.
    pub fn is_reloading(&self) -> (r: bool)
        ensures
            r == (self@.reloading is Some),
    {
        self.reloading.is_some()
    }

    /// Whether `now` has reached `next_time`, so the action may cycle and
    /// a reload may complete.
    pub fn is_ready(&self, now: u64) -> (r: bool)
        ensures
            r == (now as int >= self@.next_time),
    {
        now >= self.next_time
    }
}

/// Mass of a weapon holding `ammo` rounds, in grams.
pub open spec fn spec_weapon_mass(c: WeaponConfig, ammo: int) -> int {
    c.mass as int + (c.projectile.mass as int * ammo) / 1000
}

/// Felt recoil in milli-units: the square root of muzzle momentum over the
/// fourth root of the weapon's mass, scaled by 13 and by the grip factor.
/// Momentum is in nano newton-seconds, the fourth root of the mass (in
/// kilograms) in milli-units, so the inner square root reads milli-units.
pub open spec fn spec_recoil(c: WeaponConfig, ammo: int) -> int {
    let momentum = c.muzzle_velocity as int * c.projectile.mass as int;
    let mass_quarter_root = spec_isqrt(spec_isqrt(spec_weapon_mass(c, ammo) * 1_000_000_000));
    spec_isqrt(momentum / mass_quarter_root) * 13 * c.grip.spec_recoil_factor() / 1000
}

/// The per-mille ammo reading at instant `now`, reload progress included.
pub open spec fn spec_ammo_normalized_at(c: WeaponConfig, w: WeaponView, now: int) -> int {
    match w.reloading {
        Some(d) => {
            let start = if w.next_time >= d {
                w.next_time - d
            } else {
                0
            };
            let progress = spec_progress(start, d, now);
            if c.partial_reloading {
                spec_lerp(c.spec_ammo_normalized(w.ammo), c.spec_ammo_normalized(w.ammo + 1),
                    progress)
            } else {
                progress
            }
        },
        None => c.spec_ammo_normalized(w.ammo),
    }
}

/// One operation of the weapon state machine, as a mathematical value.
pub ghost enum WeaponOp {
    /// A trigger pull at the given instant.
    Fire { now: int },
    /// A release of the trigger latch.
    ReleaseTrigger,
    /// A reload request at the given instant, with the given duration.
    Reload { now: int, duration: int },
    /// A reload completion at the given instant.
    CompleteReloading { now: int },
}

/// The state one operation leaves behind.
pub open spec fn spec_apply_op(c: WeaponConfig, w: WeaponView, op: WeaponOp) -> WeaponView {
    match op {
        WeaponOp::Fire { now } => spec_fire(c, w, now).0,
        WeaponOp::ReleaseTrigger => WeaponView { is_trigger_pressed: false, ..w },
        WeaponOp::Reload { now, duration } => spec_reload(c, w, now, duration),
        WeaponOp::CompleteReloading { now } => spec_complete_reloading(c, w, now),
    }
}

/// The state a whole sequence of operations leaves behind, first to last.
pub open spec fn spec_apply_ops(c: WeaponConfig, w: WeaponView, ops: Seq<WeaponOp>) -> WeaponView
    decreases ops.len(),
{
    if ops.len() == 0 {
        w
    } else {
        spec_apply_ops(c, spec_apply_op(c, w, ops[0]), ops.drop_first())
    }
}

/// Fire-rate gating: a successful shot gates the weapon for one fire
/// interval, so a second successful shot — with any number of refused
/// trigger pulls or trigger releases in between, none of which move the
/// gate — comes at least `60_000 / fire_rate` milliseconds later.
pub proof fn lemma_fire_rate_gap(
    c: WeaponConfig,
    w0: WeaponView,
    w1: WeaponView,
    t1: int,
    t2: int,
)
    requires
        spec_fire(c, w0, t1).1 == WeaponFireResult::Fire,
        w1.next_time == spec_fire(c, w0, t1).0.next_time,
        spec_fire(c, w1, t2).1 == WeaponFireResult::Fire,
    ensures
        t2 - t1 >= c.spec_fire_interval(),
{
}

/// A refused trigger pull does not move the fire gate, and neither does a
/// trigger release; only the trigger latch can change.
pub proof fn lemma_unsuccessful_pull_keeps_gate(c: WeaponConfig, w: WeaponView, now: int)
    requires
        spec_fire(c, w, now).1 == WeaponFireResult::NotReady,
    ensures
        spec_fire(c, w, now).0.next_time == w.next_time,
        spec_fire(c, w, now).0.ammo == w.ammo,
        spec_fire(c, w, now).0.reloading == w.reloading,
        spec_fire(c, w, now).0.is_armed == w.is_armed,
        spec_fire(c, w, now).0.is_cocked == w.is_cocked,
{
}

/// Ammo conservation: whatever sequence of trigger pulls, releases,
/// reload requests and reload completions runs, the magazine never leaves
/// the range `[0, ammo_capacity]`.
pub proof fn lemma_ammo_conserved(c: WeaponConfig, w: WeaponView, ops: Seq<WeaponOp>)
    requires
        0 <= w.ammo <= c.ammo_capacity as int,
    ensures
        0 <= spec_apply_ops(c, w, ops).ammo <= c.ammo_capacity as int,
    decreases ops.len(),
{
    if ops.len() > 0 {
        let w1 = spec_apply_op(c, w, ops[0]);
        assert(0 <= w1.ammo <= c.ammo_capacity as int);
        lemma_ammo_conserved(c, w1, ops.drop_first());
    }
}

/// A full reloader holds exactly a full magazine the moment its reload
/// completes.
pub proof fn lemma_full_reload_fills(c: WeaponConfig, w: WeaponView, now: int)
    requires
        !c.partial_reloading,
        w.reloading is Some,
    ensures
        spec_complete_reloading(c, w, now).ammo == c.ammo_capacity as int,
{
}

/// One whole partial-reload round: a reload request followed by its
/// completion.
pub open spec fn spec_reload_round(
    c: WeaponConfig,
    w: WeaponView,
    now: int,
    duration: int,
) -> WeaponView {
    spec_complete_reloading(c, spec_reload(c, w, now, duration), now + duration)
}

/// Partial-reload monotonicity, one round: from a full magazine a round
/// gives up one shell and chambers it back, leaving the count unchanged;
/// from anything less it adds exactly one.
pub proof fn lemma_partial_reload_round(
    c: WeaponConfig,
    w: WeaponView,
    now: int,
    duration: int,
)
    requires
        c.partial_reloading,
        c.ammo_capacity > 0,
        w.reloading is None,
        0 <= w.ammo <= c.ammo_capacity as int,
    ensures
        spec_reload_round(c, w, now, duration).reloading is None,
        w.ammo == c.ammo_capacity as int ==> spec_reload_round(c, w, now, duration).ammo == w.ammo,
        w.ammo < c.ammo_capacity as int ==> spec_reload_round(c, w, now, duration).ammo == w.ammo
            + 1,
{
}

/// `n` partial-reload rounds back to back.
pub open spec fn spec_reload_rounds(c: WeaponConfig, w: WeaponView, n: nat) -> WeaponView
    decreases n,
{
    if n == 0 {
        w
    } else {
        spec_reload_round(c, spec_reload_rounds(c, w, (n - 1) as nat), 0, 0)
    }
}

/// Partial-reload monotonicity, iterated: every round adds one round of
/// ammunition until the magazine is full, and never passes the capacity.
pub proof fn lemma_partial_reload_rounds_fill(c: WeaponConfig, w: WeaponView, n: nat)
    requires
        c.partial_reloading,
        c.ammo_capacity > 0,
        w.reloading is None,
        0 <= w.ammo <= c.ammo_capacity as int,
    ensures
        spec_reload_rounds(c, w, n).reloading is None,
        spec_reload_rounds(c, w, n).ammo == if w.ammo + n <= c.ammo_capacity as int {
            w.ammo + n
        } else {
            c.ammo_capacity as int
        },
    decreases n,
{
    if n > 0 {
        lemma_partial_reload_rounds_fill(c, w, (n - 1) as nat);
        lemma_partial_reload_round(c, spec_reload_rounds(c, w, (n - 1) as nat), 0, 0);
    }
}

/// The fourth root (in milli-units) of a positive mass no heavier than the
/// bound `weapon_state_wf` allows is itself positive and small.
proof fn lemma_mass_quarter_root_bounds(mass_g: int)
    requires
        0 < mass_g <= 355_000,
    ensures
        mass_g * 1_000_000_000 <= u64::MAX as int,
        0 < spec_isqrt(spec_isqrt(mass_g * 1_000_000_000)) <= 4_000_000_000,
{
    let scaled = mass_g * 1_000_000_000;
    assert(1_000_000_000 <= scaled <= 355_000_000_000_000int) by (nonlinear_arith)
        requires
            0 < mass_g <= 355_000,
            scaled == mass_g * 1_000_000_000,
    ;
    lemma_isqrt_exists(scaled);
    let r1 = spec_isqrt(scaled);
    assert(0 < r1 <= 4_000_000_000int) by (nonlinear_arith)
        requires
            is_isqrt(scaled, r1),
            1_000_000_000 <= scaled <= 355_000_000_000_000int,
    ;
    lemma_isqrt_exists(r1);
    let r2 = spec_isqrt(r1);
    assert(0 < r2 <= 4_000_000_000int) by (nonlinear_arith)
        requires
            is_isqrt(r1, r2),
            0 < r1 <= 4_000_000_000int,
    ;
}

impl ProjectileConfig {
    /// The 9x18 pistol cartridge.
    pub fn pistol_9x18() -> (r: ProjectileConfig)
        ensures
            r == (ProjectileConfig { mass: 6_100u64, fragments: 1u32 }),
    {
        ProjectileConfig { mass: 6_100, fragments: 1 }
    }

    /// The 7.62x25 pistol cartridge.
    pub fn pistol_7_62x25() -> (r: ProjectileConfig)
        ensures
            r == (ProjectileConfig { mass: 5_500u64, fragments: 1u32 }),
    {
        ProjectileConfig { mass: 5_500, fragments: 1 }
    }

    /// The 12x76 shot shell: nine pellets per shot.
    pub fn shell_12x76() -> (r: ProjectileConfig)
        ensures
            r == (ProjectileConfig { mass: 3_500u64, fragments: 9u32 }),
    {
        ProjectileConfig { mass: 3_500, fragments: 9 }
    }

    /// The 5.45x39 rifle cartridge.
    pub fn rifle_5_45x39() -> (r: ProjectileConfig)
        ensures
            r == (ProjectileConfig { mass: 3_400u64, fragments: 1u32 }),
    {
        ProjectileConfig { mass: 3_400, fragments: 1 }
    }

    /// The 7.62x54 rifle cartridge.
    pub fn rifle_7_62x54() -> (r: ProjectileConfig)
        ensures
            r == (ProjectileConfig { mass: 9_600u64, fragments: 1u32 }),
    {
        ProjectileConfig { mass: 9_600, fragments: 1 }
    }
}

/// The nominal cyclic rate credited to semi-automatic weapons, whose real
/// pace is the shooter's finger.
pub const SEMI_AUTO_FIRE_RATE: u32 = 400;

impl WeaponConfig {
    /// The PM pistol.
    pub fn pm() -> (r: WeaponConfig)
        ensures
            r.wf(),
            !r.is_automatic,
            !r.partial_reloading,
            r.ammo_capacity == 8,
    {
        WeaponConfig {
            name: "PM",
            mass: 730,
            muzzle_velocity: 315_000,
            deviation: 30,
            fire_rate: SEMI_AUTO_FIRE_RATE,
            is_automatic: false,
            projectile: ProjectileConfig::pistol_9x18(),
            ammo_capacity: 8,
            reloading_time: 3_000,
            partial_reloading: false,
            grip: WeaponGrip::OneHand,
        }
    }

    /// The TT pistol.
    pub fn tt() -> (r: WeaponConfig)
        ensures
            r.wf(),
            !r.is_automatic,
            !r.partial_reloading,
            r.ammo_capacity == 8,
    {
        WeaponConfig {
            name: "TT",
            mass: 850,
            muzzle_velocity: 430_000,
            deviation: 25,
            fire_rate: SEMI_AUTO_FIRE_RATE,
            is_automatic: false,
            projectile: ProjectileConfig::pistol_7_62x25(),
            ammo_capacity: 8,
            reloading_time: 3_000,
            partial_reloading: false,
            grip: WeaponGrip::OneHand,
        }
    }

    /// The MP-43 sawed-off double-barrel shotgun: loads one shell at a
    /// time.
    pub fn mp_43_sawed_off() -> (r: WeaponConfig)
        ensures
            r.wf(),
            !r.is_automatic,
            r.partial_reloading,
            r.ammo_capacity == 2,
    {
        WeaponConfig {
            name: "MP-43 sawed-off",
            mass: 2_200,
            muzzle_velocity: 260_000,
            deviation: 60,
            fire_rate: SEMI_AUTO_FIRE_RATE,
            is_automatic: false,
            projectile: ProjectileConfig::shell_12x76(),
            ammo_capacity: 2,
            reloading_time: 1_200,
            partial_reloading: true,
            grip: WeaponGrip::TwoHands,
        }
    }

    /// The PP-91 Kedr submachine gun.
    pub fn pp_91_kedr() -> (r: WeaponConfig)
        ensures
            r.wf(),
            r.is_automatic,
            !r.partial_reloading,
            r.ammo_capacity == 20,
    {
        WeaponConfig {
            name: "PP-91 Kedr",
            mass: 1_600,
            muzzle_velocity: 310_000,
            deviation: 20,
            fire_rate: 900,
            is_automatic: true,
            projectile: ProjectileConfig::pistol_9x18(),
            ammo_capacity: 20,
            reloading_time: 3_800,
            partial_reloading: false,
            grip: WeaponGrip::TwoHands,
        }
    }

    /// The MP-27 double-barrel shotgun: loads one shell at a time.
    pub fn mp_27() -> (r: WeaponConfig)
        ensures
            r.wf(),
            !r.is_automatic,
            r.partial_reloading,
            r.ammo_capacity == 2,
    {
        WeaponConfig {
            name: "MP-27",
            mass: 3_200,
            muzzle_velocity: 410_000,
            deviation: 30,
            fire_rate: SEMI_AUTO_FIRE_RATE,
            is_automatic: false,
            projectile: ProjectileConfig::shell_12x76(),
            ammo_capacity: 2,
            reloading_time: 1_800,
            partial_reloading: true,
            grip: WeaponGrip::TwoHandsWithButt,
        }
    }

    /// The PP-19 Bizon submachine gun.
    pub fn pp_19_bizon() -> (r: WeaponConfig)
        ensures
            r.wf(),
            r.is_automatic,
            !r.partial_reloading,
            r.ammo_capacity == 64,
    {
        WeaponConfig {
            name: "PP-19 Bizon",
            mass: 2_700,
            muzzle_velocity: 330_000,
            deviation: 15,
            fire_rate: 680,
            is_automatic: true,
            projectile: ProjectileConfig::pistol_9x18(),
            ammo_capacity: 64,
            reloading_time: 3_800,
            partial_reloading: false,
            grip: WeaponGrip::TwoHandsWithButt,
        }
    }

    /// The AKS-74U carbine.
    pub fn aks_74u() -> (r: WeaponConfig)
        ensures
            r.wf(),
            r.is_automatic,
            !r.partial_reloading,
            r.ammo_capacity == 30,
    {
        WeaponConfig {
            name: "AKS-74U",
            mass: 2_900,
            muzzle_velocity: 735_000,
            deviation: 15,
            fire_rate: 675,
            is_automatic: true,
            projectile: ProjectileConfig::rifle_5_45x39(),
            ammo_capacity: 30,
            reloading_time: 4_200,
            partial_reloading: false,
            grip: WeaponGrip::TwoHandsWithButt,
        }
    }

    /// The AK-74M rifle.
    pub fn ak_74m() -> (r: WeaponConfig)
        ensures
            r.wf(),
            r.is_automatic,
            !r.partial_reloading,
            r.ammo_capacity == 30,
            r.fire_rate == 600,
    {
        WeaponConfig {
            name: "AK-74M",
            mass: 3_830,
            muzzle_velocity: 910_000,
            deviation: 14,
            fire_rate: 600,
            is_automatic: true,
            projectile: ProjectileConfig::rifle_5_45x39(),
            ammo_capacity: 30,
            reloading_time: 5_000,
            partial_reloading: false,
            grip: WeaponGrip::TwoHandsWithButt,
        }
    }

    /// The RPK-74 light machine gun.
    pub fn rpk_74() -> (r: WeaponConfig)
        ensures
            r.wf(),
            r.is_automatic,
            !r.partial_reloading,
            r.ammo_capacity == 45,
    {
        WeaponConfig {
            name: "RPK-74",
            mass: 5_240,
            muzzle_velocity: 960_000,
            deviation: 12,
            fire_rate: 600,
            is_automatic: true,
            projectile: ProjectileConfig::rifle_5_45x39(),
            ammo_capacity: 45,
            reloading_time: 5_800,
            partial_reloading: false,
            grip: WeaponGrip::TwoHandsWithButt,
        }
    }

    /// The Saiga-12K semi-automatic shotgun: swaps a whole magazine.
    pub fn saiga_12k() -> (r: WeaponConfig)
        ensures
            r.wf(),
            !r.is_automatic,
            !r.partial_reloading,
            r.ammo_capacity == 8,
    {
        WeaponConfig {
            name: "Saiga-12K",
            mass: 3_300,
            muzzle_velocity: 410_000,
            deviation: 35,
            fire_rate: SEMI_AUTO_FIRE_RATE,
            is_automatic: false,
            projectile: ProjectileConfig::shell_12x76(),
            ammo_capacity: 8,
            reloading_time: 5_000,
            partial_reloading: false,
            grip: WeaponGrip::TwoHandsWithButt,
        }
    }

    /// The PKM machine gun.
    pub fn pkm() -> (r: WeaponConfig)
        ensures
            r.wf(),
            r.is_automatic,
            !r.partial_reloading,
            r.ammo_capacity == 100,
    {
        WeaponConfig {
            name: "PKM",
            mass: 7_500,
            muzzle_velocity: 825_000,
            deviation: 11,
            fire_rate: 650,
            is_automatic: true,
            projectile: ProjectileConfig::rifle_7_62x54(),
            ammo_capacity: 100,
            reloading_time: 10_000,
            partial_reloading: false,
            grip: WeaponGrip::TwoHandsWithButt,
        }
    }

    /// The PKP Pecheneg machine gun.
    pub fn pkp_pecheneg() -> (r: WeaponConfig)
        ensures
            r.wf(),
            r.is_automatic,
            !r.partial_reloading,
            r.ammo_capacity == 100,
    {
        WeaponConfig {
            name: "PKP Pecheneg",
            mass: 8_200,
            muzzle_velocity: 825_000,
            deviation: 10,
            fire_rate: 650,
            is_automatic: true,
            projectile: ProjectileConfig::rifle_7_62x54(),
            ammo_capacity: 100,
            reloading_time: 10_000,
            partial_reloading: false,
            grip: WeaponGrip::TwoHandsWithButt,
        }
    }
}

} // verus!

//! Fixed-point plane vectors: positions in millimeters, velocities in
//! millimeters per second, directions in milliradians.

use crate::math::{spec_atan2_mrad, spec_cos_pm, spec_scale_pm, spec_sin_pm, atan2_mrad, cos_pm,
    scale_pm, sin_pm, HALF_TURN_MRAD};
use vstd::prelude::*;

verus! {

/// Largest coordinate magnitude of a world position, in millimeters.
pub const WORLD_LIMIT: i64 = 10_000_000;

/// Largest coordinate magnitude of an actor velocity, in millimeters per
/// second.
pub const SPEED_LIMIT: i64 = 200_000;

/// Largest distance threshold the proximity tests accept, in millimeters.
pub const DISTANCE_LIMIT: i64 = 40_000_000;

/// A plane vector of two fixed-point scalars.
#[derive(Clone, Copy, Debug, PartialEq, Eq, Structural)]
pub struct Vec2 {
    /// The x component.
    pub x: i64,
    /// The y component.
    pub y: i64,
}

impl Vec2 {
    /// Whether both coordinates lie within the world bounds.
    pub open spec fn spec_in_world(self) -> bool {
        &&& -WORLD_LIMIT <= self.x <= WORLD_LIMIT
        &&& -WORLD_LIMIT <= self.y <= WORLD_LIMIT
    }

    /// Whether both components lie within the velocity bounds.
    pub open spec fn spec_is_velocity(self) -> bool {
        &&& -SPEED_LIMIT <= self.x <= SPEED_LIMIT
        &&& -SPEED_LIMIT <= self.y <= SPEED_LIMIT
    }

    /// The squared length, as a mathematical value.
    pub open spec fn spec_len_sq(self) -> int {
        self.x * self.x + self.y * self.y
    }

    /// The squared distance to `target`, as a mathematical value.
    pub open spec fn spec_distance_sq(self, target: Vec2) -> int {
        (target.x - self.x) * (target.x - self.x) + (target.y - self.y) * (target.y - self.y)
    }

    /// The vector with the given components.
    pub fn new(x: i64, y: i64) -> (r: Vec2)
        ensures
            r == (Vec2 { x, y }),
    {
        Vec2 { x, y }
    }

    /// The zero vector.
    pub fn zero() -> (r: Vec2)
        ensures
            r == (Vec2 { x: 0i64, y: 0i64 }),
    {
        Vec2 { x: 0, y: 0 }
    }

    /// Whether this is the zero vector.
    pub fn is_zero(&self) -> (r: bool)
        ensures
            r == (self.x == 0 && self.y == 0),
    {
        self.x == 0 && self.y == 0
    }

    /// Componentwise sum.
    pub fn add(self, other: Vec2) -> (r: Vec2)
        requires
            -1_000_000_000_000 <= self.x + other.x <= 1_000_000_000_000,
            -1_000_000_000_000 <= self.y + other.y <= 1_000_000_000_000,
        ensures
            r.x == self.x + other.x,
            r.y == self.y + other.y,
    {
        Vec2 { x: self.x + other.x, y: self.y + other.y }
    }

    /// Componentwise difference.
    pub fn sub(self, other: Vec2) -> (r: Vec2)
        requires
            -1_000_000_000_000 <= self.x - other.x <= 1_000_000_000_000,
            -1_000_000_000_000 <= self.y - other.y <= 1_000_000_000_000,
        ensures
            r.x == self.x - other.x,
            r.y == self.y - other.y,
    {
        Vec2 { x: self.x - other.x, y: self.y - other.y }
    }

    /// Whether both coordinates lie within the wider range the distance
    /// and direction helpers accept; every world position does, and so
    /// does every aim point the intercept solver hands back.
    pub open spec fn spec_in_range(self) -> bool {
        &&& -DISTANCE_LIMIT <= self.x <= DISTANCE_LIMIT
        &&& -DISTANCE_LIMIT <= self.y <= DISTANCE_LIMIT
    }

    /// The squared distance to `target`, in square millimeters.
    pub fn distance_squared(self, target: Vec2) -> (r: i64)
        requires
            self.spec_in_range(),
            target.spec_in_range(),
        ensures
            r == self.spec_distance_sq(target),
            0 <= r <= 12_800_000_000_000_000,
    {
        let dx: i64 = target.x - self.x;
        let dy: i64 = target.y - self.y;
        proof {
            assert(0 <= dx as int * dx as int <= 6_400_000_000_000_000int && 0 <= dy as int * dy
                as int <= 6_400_000_000_000_000int) by (nonlinear_arith)
                requires
                    -80_000_000 <= dx as int <= 80_000_000,
                    -80_000_000 <= dy as int <= 80_000_000,
            ;
        }
        dx * dx + dy * dy
    }

    /// Whether `target` lies strictly closer than `threshold` millimeters.
    pub fn is_close(self, target: Vec2, threshold: i64) -> (r: bool)
        requires
            self.spec_in_range(),
            target.spec_in_range(),
            0 <= threshold <= DISTANCE_LIMIT,
        ensures
            r == (self.spec_distance_sq(target) < threshold * threshold),
    {
        proof {
            assert(0 <= threshold as int * threshold as int <= 1_600_000_000_000_000int)
                by (nonlinear_arith)
                requires
                    0 <= threshold as int <= 40_000_000,
            ;
        }
        self.distance_squared(target) < threshold * threshold
    }

    /// Whether `target` lies at least `threshold` millimeters away.
    pub fn is_far(self, target: Vec2, threshold: i64) -> (r: bool)
        requires
            self.spec_in_range(),
            target.spec_in_range(),
            0 <= threshold <= DISTANCE_LIMIT,
        ensures
            r == (self.spec_distance_sq(target) >= threshold * threshold),
    {
        !self.is_close(target, threshold)
    }

    /// The dot product with `other`.
    pub fn dot(self, other: Vec2) -> (r: i64)
        requires
            -40_000_000 <= self.x <= 40_000_000,
            -40_000_000 <= self.y <= 40_000_000,
            -40_000_000 <= other.x <= 40_000_000,
            -40_000_000 <= other.y <= 40_000_000,
        ensures
            r == self.x * other.x + self.y * other.y,
    {
        proof {
            assert(-1_600_000_000_000_000int <= self.x as int * other.x as int
                <= 1_600_000_000_000_000int && -1_600_000_000_000_000int <= self.y as int
                * other.y as int <= 1_600_000_000_000_000int) by (nonlinear_arith)
                requires
                    -40_000_000 <= self.x as int <= 40_000_000,
                    -40_000_000 <= self.y as int <= 40_000_000,
                    -40_000_000 <= other.x as int <= 40_000_000,
                    -40_000_000 <= other.y as int <= 40_000_000,
            ;
        }
        self.x * other.x + self.y * other.y
    }

    /// The direction from this point toward `target`, in milliradians.
    pub fn angle_to(self, target: Vec2) -> (r: i64)
        requires
            self.spec_in_range(),
            target.spec_in_range(),
        ensures
            r == spec_atan2_mrad(target.y - self.y, target.x - self.x),
            -HALF_TURN_MRAD <= r <= HALF_TURN_MRAD,
    {
        atan2_mrad(target.y - self.y, target.x - self.x)
    }

    /// The vector of the given length pointing along `angle`, components
    /// rounded toward zero.
    pub fn from_length(length: i64, angle: i64) -> (r: Vec2)
        requires
            0 <= length <= 1_000_000_000,
            -999_000_000_000 <= angle <= 999_000_000_000,
        ensures
            r.x == spec_scale_pm(length as int, spec_cos_pm(angle as int)),
            r.y == spec_scale_pm(length as int, spec_sin_pm(angle as int)),
            -1_000_000_000 <= r.x <= 1_000_000_000,
            -1_000_000_000 <= r.y <= 1_000_000_000,
    {
        let c: i64 = cos_pm(angle);
        let s: i64 = sin_pm(angle);
        let x: i64 = scale_pm(length, c);
        let y: i64 = scale_pm(length, s);
        Vec2 { x, y }
    }
}

} // verus!

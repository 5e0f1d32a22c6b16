//! World configuration: the tunable constants of the simulation, threaded
//! explicitly into the integrator and the boundary responder instead of
//! living as process-wide state.

use vstd::prelude::*;

verus! {

/// Largest coordinate the world rectangle may reach, in raw scalar steps.
pub const WORLD_LIMIT: i64 = 1_000_000_000;

/// Largest magnitude a position or velocity component may carry going into
/// one integration step; keeps every intermediate product inside `i64`.
pub const KINEMATIC_LIMIT: i64 = 1_000_000_000_000;

/// Largest magnitude an accumulated-force component may carry going into
/// one integration step.
pub const FORCE_LIMIT: i64 = 8_000_000_000_000;

/// Largest admissible entity mass, in raw scalar steps.
pub const MASS_LIMIT: i64 = 10_000_000;

/// Largest admissible gravitational constant, in raw scalar steps.
pub const GRAV_CONST_LIMIT: i64 = 200_000;

/// Largest admissible drag or friction coefficient, in raw scalar steps.
pub const COEFF_LIMIT: i64 = 1_000_000;

/// Largest time step a single integration accepts: one full second.
pub const DT_LIMIT: i64 = 1000;

/// Largest time step the frame driver hands to the integrator: 0.016 s,
/// the clamp that bounds integration error when a frame runs long.
pub const FRAME_DT_LIMIT: i64 = 16;

/// An axis-aligned rectangle, used for the liquid (drag) region.
#[derive(Clone, Copy, PartialEq, Eq, Structural, Debug)]
pub struct Rect {
    pub x: i64,
    pub y: i64,
    pub width: i64,
    pub height: i64,
}

/// The tunable parameters of the world.
#[derive(Clone, Copy, PartialEq, Eq, Structural, Debug)]
pub struct WorldConfig {
    /// World rectangle extent: positions live in `[0, width] x [0, height]`.
    pub width: i64,
    pub height: i64,
    /// Target frame rate for the external pacing loop.
    pub frames_per_second: u32,
    /// Whether a constant downward global-gravity term joins each step.
    pub gravity_enabled: bool,
    /// The global-gravity acceleration added when enabled, along `+y`.
    pub gravity_accel: i64,
    /// The constant of the pairwise inverse-square attraction.
    pub gravitational_constant: i64,
    /// Coefficient of the quadratic drag force.
    pub drag_coefficient: i64,
    /// Coefficient of the linear friction force.
    pub friction_coefficient: i64,
    /// Fraction of speed kept on a boundary bounce, in thousandths.
    pub restitution: i64,
    /// Ranges of the randomized spawn parameters, each half-open `[min, max)`.
    pub spawn_velocity_min: i64,
    pub spawn_velocity_max: i64,
    pub spawn_accel_min: i64,
    pub spawn_accel_max: i64,
    pub spawn_mass_min: i64,
    pub spawn_mass_max: i64,
    pub spawn_radius_min: i64,
    pub spawn_radius_max: i64,
}

impl WorldConfig {
    /// The machine bounds every configuration must respect.
    pub open spec fn wf(self) -> bool {
        &&& 0 < self.width <= WORLD_LIMIT
        &&& 0 < self.height <= WORLD_LIMIT
        &&& self.frames_per_second >= 1
        &&& 0 <= self.gravity_accel <= WORLD_LIMIT
        &&& 0 <= self.gravitational_constant <= GRAV_CONST_LIMIT
        &&& 0 <= self.drag_coefficient <= COEFF_LIMIT
        &&& 0 <= self.friction_coefficient <= COEFF_LIMIT
        &&& 0 <= self.restitution <= 1000
        &&& -WORLD_LIMIT <= self.spawn_velocity_min < self.spawn_velocity_max <= WORLD_LIMIT
        &&& -WORLD_LIMIT <= self.spawn_accel_min < self.spawn_accel_max <= WORLD_LIMIT
        &&& 0 < self.spawn_mass_min < self.spawn_mass_max <= MASS_LIMIT
        &&& 0 <= self.spawn_radius_min < self.spawn_radius_max <= WORLD_LIMIT
    }

    /// The observed configuration: an 800 x 600 world at 60 frames per
    /// second, gravity off, attraction constant 100, quadratic drag 2,
    /// linear friction 5, a 10% energy loss per bounce, and the spawn
    /// ranges of the randomized constructor.
    pub fn standard() -> (c: WorldConfig)
        ensures
            c.wf(),
            c.width == 800_000,
            c.height == 600_000,
            c.frames_per_second == 60,
            !c.gravity_enabled,
            c.gravity_accel == 490_000,
            c.gravitational_constant == 100_000,
            c.drag_coefficient == 2_000,
            c.friction_coefficient == 5_000,
            c.restitution == 900,
            c.spawn_velocity_min == -100_000,
            c.spawn_velocity_max == 100_000,
            c.spawn_accel_min == -100_000,
            c.spawn_accel_max == 100_000,
            c.spawn_mass_min == 1_000,
            c.spawn_mass_max == 100_000,
            c.spawn_radius_min == 1_000,
            c.spawn_radius_max == 25_000,
    {
        WorldConfig {
            width: 800_000,
            height: 600_000,
            frames_per_second: 60,
            gravity_enabled: false,
            gravity_accel: 490_000,
            gravitational_constant: 100_000,
            drag_coefficient: 2_000,
            friction_coefficient: 5_000,
            restitution: 900,
            spawn_velocity_min: -100_000,
            spawn_velocity_max: 100_000,
            spawn_accel_min: -100_000,
            spawn_accel_max: 100_000,
            spawn_mass_min: 1_000,
            spawn_mass_max: 100_000,
            spawn_radius_min: 1_000,
            spawn_radius_max: 25_000,
        }
    }

    /// The liquid region the observed scene uses: the lower half of the
    /// world rectangle.
    pub fn lower_half_liquid(&self) -> (r: Rect)
        requires
            self.wf(),
        ensures
            r.x == 0,
            r.y == self.height / 2,
            r.width == self.width,
            r.height == self.height - self.height / 2,
    {
        let half: i64 = self.height / 2;
        Rect { x: 0, y: half, width: self.width, height: self.height - half }
    }
}

/// A point lies inside the liquid region when its vertical coordinate has
/// reached the region's top edge, as the drag trigger reads it.
pub open spec fn in_liquid(r: Rect, y: int) -> bool {
    y >= r.y
}

} // verus!

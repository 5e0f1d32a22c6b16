//! The point-mass entity and its integrator: forces accumulate between
//! steps, one `update` consumes them with a semi-implicit Euler step,
//! bounces the result off the world's edges, and clears the accumulator.

use vstd::prelude::*;
use vstd::math::abs;
use crate::config::{WorldConfig, KINEMATIC_LIMIT, FORCE_LIMIT, MASS_LIMIT, WORLD_LIMIT, DT_LIMIT};
use crate::fixed::{
    fx_mul, fx_div, fx_mul_spec, fx_div_spec, FX_ONE, lemma_mul_abs_bound, lemma_div_bound_scale,
    lemma_tdiv_sign,
};
use crate::vec2::Vec2;

verus! {

/// Largest velocity magnitude a component can reach inside one step, once
/// the acceleration contribution has been added.
pub const STEP_VELOCITY_LIMIT: i64 = 8_100_000_000_000_000;

#[derive(Clone, Copy, PartialEq, Eq, Structural, Debug)]
pub struct Particle {
    pub position: Vec2,
    pub velocity: Vec2,
    pub acceleration: Vec2,
    pub sum_of_forces: Vec2,
    pub display_radius: i64,
    pub mass: i64,
    pub inv_mass: i64,
}

impl Particle {
    /// Construction-time invariants: a positive, bounded mass whose stored
    /// inverse is exactly the fixed-point reciprocal, and a non-negative,
    /// bounded display radius.
    pub open spec fn wf(self) -> bool {
        &&& 0 < self.mass <= MASS_LIMIT
        &&& self.inv_mass == fx_div_spec(FX_ONE as int, self.mass as int)
        &&& 0 <= self.inv_mass <= 1_000_000
        &&& 0 <= self.display_radius <= WORLD_LIMIT
    }

    /// The machine bounds one integration step needs: position, velocity
    /// and accumulated force small enough that no intermediate product
    /// leaves `i64`.
    pub open spec fn step_fits(self, dt: int) -> bool {
        &&& 0 < dt <= DT_LIMIT
        &&& self.position.bounded(KINEMATIC_LIMIT as int)
        &&& self.velocity.bounded(KINEMATIC_LIMIT as int)
        &&& self.sum_of_forces.bounded(FORCE_LIMIT as int)
    }

    /// A particle with the given kinematic state; the accumulator starts
    /// empty and the display radius at the observed default of 10 units.
    pub fn new(position: Vec2, velocity: Vec2, acceleration: Vec2, mass: i64) -> (p: Particle)
        requires
            0 < mass <= MASS_LIMIT,
        ensures
            p.wf(),
            p.position == position,
            p.velocity == velocity,
            p.acceleration == acceleration,
            p.sum_of_forces.is_zero(),
            p.display_radius == 10_000,
            p.mass == mass,
    {
        let inv_mass = fx_div(FX_ONE, mass);
        proof {
            lemma_tdiv_sign(FX_ONE as int * 1000, mass as int);
            lemma_div_bound_scale(abs(inv_mass as int) as int, mass as int, 1, 1_000_000);
        }
        Particle {
            position,
            velocity,
            acceleration,
            sum_of_forces: Vec2 { x: 0, y: 0 },
            display_radius: 10_000,
            mass,
            inv_mass,
        }
    }

    /// A particle at exactly `(x, y)` — the spawn coordinate is never
    /// perturbed — with velocity, acceleration, mass and radius drawn
    /// uniformly from the configuration's spawn ranges.
    pub fn new_random(x: i64, y: i64, cfg: &WorldConfig) -> (p: Particle)
        requires
            cfg.wf(),
        ensures
            p.wf(),
            p.position == (Vec2 { x, y }),
            cfg.spawn_velocity_min <= p.velocity.x < cfg.spawn_velocity_max,
            cfg.spawn_velocity_min <= p.velocity.y < cfg.spawn_velocity_max,
            cfg.spawn_accel_min <= p.acceleration.x < cfg.spawn_accel_max,
            cfg.spawn_accel_min <= p.acceleration.y < cfg.spawn_accel_max,
            cfg.spawn_mass_min <= p.mass < cfg.spawn_mass_max,
            cfg.spawn_radius_min <= p.display_radius < cfg.spawn_radius_max,
            p.sum_of_forces.is_zero(),
    {
        let mut rng = crate::rng::new_rng();
        let vx = crate::rng::sample_range(&mut rng, cfg.spawn_velocity_min, cfg.spawn_velocity_max);
        let vy = crate::rng::sample_range(&mut rng, cfg.spawn_velocity_min, cfg.spawn_velocity_max);
        let ax = crate::rng::sample_range(&mut rng, cfg.spawn_accel_min, cfg.spawn_accel_max);
        let ay = crate::rng::sample_range(&mut rng, cfg.spawn_accel_min, cfg.spawn_accel_max);
        let mass = crate::rng::sample_range(&mut rng, cfg.spawn_mass_min, cfg.spawn_mass_max);
        let radius = crate::rng::sample_range(&mut rng, cfg.spawn_radius_min, cfg.spawn_radius_max);
        let inv_mass = fx_div(FX_ONE, mass);
        proof {
            lemma_tdiv_sign(FX_ONE as int * 1000, mass as int);
            lemma_div_bound_scale(abs(inv_mass as int) as int, mass as int, 1, 1_000_000);
        }
        Particle {
            position: Vec2 { x, y },
            velocity: Vec2 { x: vx, y: vy },
            acceleration: Vec2 { x: ax, y: ay },
            sum_of_forces: Vec2 { x: 0, y: 0 },
            display_radius: radius,
            mass,
            inv_mass,
        }
    }

    pub fn position(&self) -> (r: Vec2)
        ensures
            r == self.position,
    {
        self.position
    }

    pub fn radius(&self) -> (r: i64)
        ensures
            r == self.display_radius,
    {
        self.display_radius
    }

    pub fn velocity(&self) -> (r: Vec2)
        ensures
            r == self.velocity,
    {
        self.velocity
    }

    pub fn mass(&self) -> (r: i64)
        ensures
            r == self.mass,
    {
        self.mass
    }

    /// Add a force into the per-step accumulator; it will be consumed and
    /// cleared by the next `update`.
    pub fn add_force(&mut self, force: Vec2)
        requires
            i64::MIN <= old(self).sum_of_forces.x + force.x <= i64::MAX,
            i64::MIN <= old(self).sum_of_forces.y + force.y <= i64::MAX,
        ensures
            final(self).sum_of_forces.x == old(self).sum_of_forces.x + force.x,
            final(self).sum_of_forces.y == old(self).sum_of_forces.y + force.y,
            final(self).position == old(self).position,
            final(self).velocity == old(self).velocity,
            final(self).acceleration == old(self).acceleration,
            final(self).display_radius == old(self).display_radius,
            final(self).mass == old(self).mass,
            final(self).inv_mass == old(self).inv_mass,
    {
        self.sum_of_forces = self.sum_of_forces.plus(force);
    }

    fn clear_forces(&mut self)
        ensures
            final(self).sum_of_forces.is_zero(),
            final(self).position == old(self).position,
            final(self).velocity == old(self).velocity,
            final(self).acceleration == old(self).acceleration,
            final(self).display_radius == old(self).display_radius,
            final(self).mass == old(self).mass,
            final(self).inv_mass == old(self).inv_mass,
    {
        self.sum_of_forces = Vec2 { x: 0, y: 0 };
    }
}

/// The acceleration one step derives along `x`: Newton's second law over
/// the accumulated force.
pub open spec fn accel_x_spec(p: Particle) -> int {
    fx_mul_spec(p.sum_of_forces.x as int, p.inv_mass as int)
}

/// The acceleration one step derives along `y`: Newton's second law over
/// the accumulated force, plus the constant global-gravity term when the
/// configuration enables it.
pub open spec fn accel_y_spec(p: Particle, cfg: WorldConfig) -> int {
    fx_mul_spec(p.sum_of_forces.y as int, p.inv_mass as int) + if cfg.gravity_enabled {
        cfg.gravity_accel as int
    } else {
        0
    }
}

/// The boundary responder for one axis: a position that penetrates either
/// edge is clamped to contact and the velocity component is reversed,
/// scaled by the restitution; otherwise both pass through unchanged.
/// Returns `(position, velocity)`.
pub open spec fn axis_response(pos: int, vel: int, radius: int, bound: int, restitution: int) -> (
    int,
    int,
) {
    if pos - radius < 0 {
        (radius, fx_mul_spec(vel, -restitution))
    } else if pos + radius > bound {
        (bound - radius, fx_mul_spec(vel, -restitution))
    } else {
        (pos, vel)
    }
}

/// Exactly one semi-implicit Euler step: `post` is `pre` after deriving
/// acceleration from the accumulated force, updating velocity first and
/// position from the new velocity, applying the boundary responder per
/// axis, and clearing the accumulator.
pub open spec fn update_rel(pre: Particle, post: Particle, cfg: WorldConfig, dt: int) -> bool {
    let ax = accel_x_spec(pre);
    let ay = accel_y_spec(pre, cfg);
    let vx = pre.velocity.x + fx_mul_spec(ax, dt);
    let vy = pre.velocity.y + fx_mul_spec(ay, dt);
    let rx = axis_response(
        pre.position.x + fx_mul_spec(vx, dt),
        vx,
        pre.display_radius as int,
        cfg.width as int,
        cfg.restitution as int,
    );
    let ry = axis_response(
        pre.position.y + fx_mul_spec(vy, dt),
        vy,
        pre.display_radius as int,
        cfg.height as int,
        cfg.restitution as int,
    );
    &&& post.position.x == rx.0
    &&& post.velocity.x == rx.1
    &&& post.position.y == ry.0
    &&& post.velocity.y == ry.1
    &&& post.acceleration.x == ax
    &&& post.acceleration.y == ay
    &&& post.sum_of_forces.is_zero()
    &&& post.display_radius == pre.display_radius
    &&& post.mass == pre.mass
    &&& post.inv_mass == pre.inv_mass
}

/// No spurious motion: an entity at rest, with an empty force accumulator,
/// gravity disabled, and standing clear of the world's edges, is left by
/// one integration step with its position and velocity unchanged.
///
/// (A moving entity does change position — that is motion, not noise — so
/// the rest velocity and the in-bounds position are genuine premises.)
pub proof fn lemma_no_spurious_motion(pre: Particle, post: Particle, cfg: WorldConfig, dt: int)
    requires
        update_rel(pre, post, cfg, dt),
        pre.sum_of_forces.is_zero(),
        !cfg.gravity_enabled,
        pre.velocity.is_zero(),
        pre.display_radius <= pre.position.x,
        pre.position.x + pre.display_radius <= cfg.width,
        pre.display_radius <= pre.position.y,
        pre.position.y + pre.display_radius <= cfg.height,
    ensures
        post.position == pre.position,
        post.velocity == pre.velocity,
{
    assert(0 * pre.inv_mass as int == 0) by (nonlinear_arith);
    assert(fx_mul_spec(0, pre.inv_mass as int) == 0);
    assert(fx_mul_spec(0, dt) == 0);
}

/// The boundary responder on a position penetrating the low edge: the
/// position is clamped exactly to contact and the velocity component is
/// reversed, scaled by the restitution.
pub proof fn lemma_boundary_clamp_low(pos: int, vel: int, radius: int, bound: int, restitution: int)
    requires
        pos - radius < 0,
    ensures
        axis_response(pos, vel, radius, bound, restitution) == (
            radius,
            fx_mul_spec(vel, -restitution),
        ),
{
}

/// The boundary responder on a position penetrating the high edge: the
/// position is clamped exactly to contact and the velocity component is
/// reversed, scaled by the restitution.
pub proof fn lemma_boundary_clamp_high(
    pos: int,
    vel: int,
    radius: int,
    bound: int,
    restitution: int,
)
    requires
        pos - radius >= 0,
        pos + radius > bound,
    ensures
        axis_response(pos, vel, radius, bound, restitution) == (
            bound - radius,
            fx_mul_spec(vel, -restitution),
        ),
{
}

/// The boundary responder away from both edges passes position and
/// velocity through unchanged.
pub proof fn lemma_boundary_pass(pos: int, vel: int, radius: int, bound: int, restitution: int)
    requires
        radius <= pos,
        pos + radius <= bound,
    ensures
        axis_response(pos, vel, radius, bound, restitution) == (pos, vel),
{
}

/// The boundary clamp through a full step, for an entity whose
/// acceleration does not change its horizontal velocity this step: when
/// the integrated horizontal position penetrates the low edge, the step
/// leaves the horizontal position at exactly the radius and the
/// horizontal velocity reversed, scaled by the restitution.
pub proof fn lemma_update_clamps_low_x(pre: Particle, post: Particle, cfg: WorldConfig, dt: int)
    requires
        update_rel(pre, post, cfg, dt),
        pre.velocity.x + fx_mul_spec(accel_x_spec(pre), dt) == pre.velocity.x,
        pre.position.x + fx_mul_spec(pre.velocity.x as int, dt) - pre.display_radius < 0,
    ensures
        post.position.x == pre.display_radius,
        post.velocity.x == fx_mul_spec(pre.velocity.x as int, -(cfg.restitution as int)),
{
}

impl Particle {
    /// One axis of the position update and boundary response, along `x`.
    fn update_x_position(&mut self, cfg: &WorldConfig, delta_time: i64)
        requires
            cfg.wf(),
            0 < delta_time <= DT_LIMIT,
            abs(old(self).position.x as int) <= KINEMATIC_LIMIT as int,
            abs(old(self).velocity.x as int) <= STEP_VELOCITY_LIMIT as int,
            0 <= old(self).display_radius <= WORLD_LIMIT,
        ensures
            ({
                let r = axis_response(
                    old(self).position.x + fx_mul_spec(old(self).velocity.x as int, delta_time as int),
                    old(self).velocity.x as int,
                    old(self).display_radius as int,
                    cfg.width as int,
                    cfg.restitution as int,
                );
                final(self).position.x == r.0 && final(self).velocity.x == r.1
            }),
            abs(final(self).position.x as int) <= WORLD_LIMIT as int,
            final(self).position.y == old(self).position.y,
            final(self).velocity.y == old(self).velocity.y,
            final(self).acceleration == old(self).acceleration,
            final(self).sum_of_forces == old(self).sum_of_forces,
            final(self).display_radius == old(self).display_radius,
            final(self).mass == old(self).mass,
            final(self).inv_mass == old(self).inv_mass,
    {
        proof {
            lemma_mul_abs_bound(
                self.velocity.x as int,
                delta_time as int,
                STEP_VELOCITY_LIMIT as int,
                DT_LIMIT as int,
            );
        }
        let shift: i64 = fx_mul(self.velocity.x, delta_time);
        let new_x: i64 = self.position.x + shift;
        if new_x - self.display_radius < 0 {
            proof {
                lemma_mul_abs_bound(
                    self.velocity.x as int,
                    -(cfg.restitution as int),
                    STEP_VELOCITY_LIMIT as int,
                    1000,
                );
            }
            self.position = Vec2 { x: self.display_radius, y: self.position.y };
            self.velocity = Vec2 { x: fx_mul(self.velocity.x, -cfg.restitution), y: self.velocity.y };
        } else if new_x + self.display_radius > cfg.width {
            proof {
                lemma_mul_abs_bound(
                    self.velocity.x as int,
                    -(cfg.restitution as int),
                    STEP_VELOCITY_LIMIT as int,
                    1000,
                );
            }
            self.position = Vec2 { x: cfg.width - self.display_radius, y: self.position.y };
            self.velocity = Vec2 { x: fx_mul(self.velocity.x, -cfg.restitution), y: self.velocity.y };
        } else {
            self.position = Vec2 { x: new_x, y: self.position.y };
        }
    }

    /// One axis of the position update and boundary response, along `y`.
    fn update_y_position(&mut self, cfg: &WorldConfig, delta_time: i64)
        requires
            cfg.wf(),
            0 < delta_time <= DT_LIMIT,
            abs(old(self).position.y as int) <= KINEMATIC_LIMIT as int,
            abs(old(self).velocity.y as int) <= STEP_VELOCITY_LIMIT as int,
            0 <= old(self).display_radius <= WORLD_LIMIT,
        ensures
            ({
                let r = axis_response(
                    old(self).position.y + fx_mul_spec(old(self).velocity.y as int, delta_time as int),
                    old(self).velocity.y as int,
                    old(self).display_radius as int,
                    cfg.height as int,
                    cfg.restitution as int,
                );
                final(self).position.y == r.0 && final(self).velocity.y == r.1
            }),
            abs(final(self).position.y as int) <= WORLD_LIMIT as int,
            final(self).position.x == old(self).position.x,
            final(self).velocity.x == old(self).velocity.x,
            final(self).acceleration == old(self).acceleration,
            final(self).sum_of_forces == old(self).sum_of_forces,
            final(self).display_radius == old(self).display_radius,
            final(self).mass == old(self).mass,
            final(self).inv_mass == old(self).inv_mass,
    {
        proof {
            lemma_mul_abs_bound(
                self.velocity.y as int,
                delta_time as int,
                STEP_VELOCITY_LIMIT as int,
                DT_LIMIT as int,
            );
        }
        let shift: i64 = fx_mul(self.velocity.y, delta_time);
        let new_y: i64 = self.position.y + shift;
        if new_y - self.display_radius < 0 {
            proof {
                lemma_mul_abs_bound(
                    self.velocity.y as int,
                    -(cfg.restitution as int),
                    STEP_VELOCITY_LIMIT as int,
                    1000,
                );
            }
            self.position = Vec2 { x: self.position.x, y: self.display_radius };
            self.velocity = Vec2 { x: self.velocity.x, y: fx_mul(self.velocity.y, -cfg.restitution) };
        } else if new_y + self.display_radius > cfg.height {
            proof {
                lemma_mul_abs_bound(
                    self.velocity.y as int,
                    -(cfg.restitution as int),
                    STEP_VELOCITY_LIMIT as int,
                    1000,
                );
            }
            self.position = Vec2 { x: self.position.x, y: cfg.height - self.display_radius };
            self.velocity = Vec2 { x: self.velocity.x, y: fx_mul(self.velocity.y, -cfg.restitution) };
        } else {
            self.position = Vec2 { x: self.position.x, y: new_y };
        }
    }

    /// One full integration step: derive acceleration from the accumulated
    /// force (plus global gravity when enabled), update velocity before
    /// position (semi-implicit Euler — the order is load-bearing), bounce
    /// off the world's edges per axis, and clear the accumulator.
    pub fn update(&mut self, cfg: &WorldConfig, delta_time: i64)
        requires
            old(self).wf(),
            cfg.wf(),
            old(self).step_fits(delta_time as int),
        ensures
            update_rel(*old(self), *final(self), *cfg, delta_time as int),
            final(self).wf(),
            final(self).sum_of_forces.is_zero(),
            final(self).position.bounded(WORLD_LIMIT as int),
    {
        proof {
            lemma_mul_abs_bound(
                self.sum_of_forces.x as int,
                self.inv_mass as int,
                FORCE_LIMIT as int,
                1_000_000,
            );
            lemma_mul_abs_bound(
                self.sum_of_forces.y as int,
                self.inv_mass as int,
                FORCE_LIMIT as int,
                1_000_000,
            );
        }
        let ax: i64 = fx_mul(self.sum_of_forces.x, self.inv_mass);
        let mut ay: i64 = fx_mul(self.sum_of_forces.y, self.inv_mass);
        if cfg.gravity_enabled {
            ay = ay + cfg.gravity_accel;
        }
        self.acceleration = Vec2 { x: ax, y: ay };

        proof {
            lemma_mul_abs_bound(ax as int, delta_time as int, 8_000_001_000_000_000, DT_LIMIT as int);
            lemma_mul_abs_bound(ay as int, delta_time as int, 8_000_001_000_000_000, DT_LIMIT as int);
        }
        self.velocity = Vec2 {
            x: self.velocity.x + fx_mul(ax, delta_time),
            y: self.velocity.y + fx_mul(ay, delta_time),
        };

        self.update_x_position(cfg, delta_time);
        self.update_y_position(cfg, delta_time);
        self.clear_forces();
    }
}

} // verus!

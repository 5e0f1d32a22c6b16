//! The shaped entity: a point mass with an attached shape and rotational
//! state.  Linear integration mirrors the particle's; the angular mirror
//! uses accumulated torque and the inverse moment of inertia.

use vstd::prelude::*;
use vstd::math::abs;
use crate::config::{WorldConfig, KINEMATIC_LIMIT, FORCE_LIMIT, MASS_LIMIT, WORLD_LIMIT, DT_LIMIT};
use crate::fixed::{
    fx_mul, fx_div, fx_mul_spec, fx_div_spec, FX_ONE, lemma_mul_abs_bound, lemma_div_bound_scale,
    lemma_tdiv_sign, lemma_fx_mul_sign,
};
use crate::particle::axis_response;
use crate::shape::{
    Shape, spec_rotate, spec_update_x, spec_update_y, spec_moment_of_inertia, CIRCLE_RADIUS_LIMIT,
};
use crate::vec2::Vec2;

verus! {

/// Largest magnitude a circle's accumulated angle marker may carry going
/// into one step.
pub const ANGLE_LIMIT: i64 = 1_000_000_000_000_000_000;

/// The inverse moment of inertia stored at construction: the shape's
/// contribution scaled by the mass, inverted when positive; zero stands
/// for "no rotational response" (the polygon extension point, or a
/// degenerate circle).
pub open spec fn inv_inertia_spec(shape: Shape, mass: int) -> int {
    match spec_moment_of_inertia(shape) {
        Some(ms) => {
            let inertia = fx_mul_spec(ms, mass);
            if inertia >= 1 {
                fx_div_spec(FX_ONE as int, inertia)
            } else {
                0
            }
        },
        None => 0,
    }
}

#[derive(Clone, Debug)]
pub struct Body {
    pub position: Vec2,
    pub velocity: Vec2,
    pub acceleration: Vec2,
    pub sum_of_forces: Vec2,
    pub shape: Shape,
    pub display_radius: i64,
    pub mass: i64,
    pub inv_mass: i64,
    pub rotation: i64,
    pub angular_velocity: i64,
    pub angular_acceleration: i64,
    pub sum_of_torque: i64,
    pub inv_inertia: i64,
}

impl Body {
    /// Construction-time invariants: positive bounded mass with its exact
    /// fixed-point reciprocal, bounded radius, bounded inverse inertia,
    /// and a shape whose radius the inertia computation accepts.
    pub open spec fn wf(self) -> bool {
        &&& 0 < self.mass <= MASS_LIMIT
        &&& self.inv_mass == fx_div_spec(FX_ONE as int, self.mass as int)
        &&& 0 <= self.inv_mass <= 1_000_000
        &&& 0 <= self.display_radius <= WORLD_LIMIT
        &&& 0 <= self.inv_inertia <= 1_000_000
        &&& (self.shape matches Shape::Circle(c) ==> 0 <= c.radius <= CIRCLE_RADIUS_LIMIT)
    }

    /// The machine bounds one integration step needs, linear and angular.
    pub open spec fn step_fits(self, dt: int) -> bool {
        &&& 0 < dt <= DT_LIMIT
        &&& self.position.bounded(KINEMATIC_LIMIT as int)
        &&& self.velocity.bounded(KINEMATIC_LIMIT as int)
        &&& self.sum_of_forces.bounded(FORCE_LIMIT as int)
        &&& abs(self.angular_velocity as int) <= KINEMATIC_LIMIT as int
        &&& abs(self.rotation as int) <= KINEMATIC_LIMIT as int
        &&& abs(self.sum_of_torque as int) <= FORCE_LIMIT as int
        &&& (self.shape matches Shape::Circle(c) ==> abs(c.angle as int) <= ANGLE_LIMIT as int)
    }

    /// The full constructor behind `new` and `new_random`: every stored
    /// derived quantity (inverse mass, inverse inertia) is pinned exactly.
    fn assemble(
        position: Vec2,
        velocity: Vec2,
        acceleration: Vec2,
        shape: Shape,
        mass: i64,
        display_radius: i64,
        rotation: i64,
        angular_velocity: i64,
        angular_acceleration: i64,
        sum_of_torque: i64,
    ) -> (b: Body)
        requires
            0 < mass <= MASS_LIMIT,
            0 <= display_radius <= WORLD_LIMIT,
            shape matches Shape::Circle(c) ==> 0 <= c.radius <= CIRCLE_RADIUS_LIMIT,
        ensures
            b.wf(),
            b.position == position,
            b.velocity == velocity,
            b.acceleration == acceleration,
            b.sum_of_forces.is_zero(),
            b.shape == shape,
            b.display_radius == display_radius,
            b.mass == mass,
            b.rotation == rotation,
            b.angular_velocity == angular_velocity,
            b.angular_acceleration == angular_acceleration,
            b.sum_of_torque == sum_of_torque,
            b.inv_inertia == inv_inertia_spec(shape, mass as int),
    {
        let inv_mass = fx_div(FX_ONE, mass);
        proof {
            lemma_tdiv_sign(FX_ONE as int * 1000, mass as int);
            lemma_div_bound_scale(abs(inv_mass as int) as int, mass as int, 1, 1_000_000);
        }
        let inv_inertia: i64 = match shape.moment_of_inertia() {
            Some(shape_moment) => {
                proof {
                    lemma_mul_abs_bound(shape_moment as int, mass as int, 500_000_000, MASS_LIMIT as int);
                }
                let inertia = fx_mul(shape_moment, mass);
                if inertia >= 1 {
                    let inv = fx_div(FX_ONE, inertia);
                    proof {
                        lemma_tdiv_sign(FX_ONE as int * 1000, inertia as int);
                        lemma_div_bound_scale(abs(inv as int) as int, inertia as int, 1, 1_000_000);
                    }
                    inv
                } else {
                    0
                }
            },
            None => 0,
        };
        Body {
            position,
            velocity,
            acceleration,
            sum_of_forces: Vec2 { x: 0, y: 0 },
            shape,
            display_radius,
            mass,
            inv_mass,
            rotation,
            angular_velocity,
            angular_acceleration,
            sum_of_torque,
            inv_inertia,
        }
    }

    /// A body with the given kinematic state and shape, at rest
    /// rotationally, with the observed default display radius of 20 units.
    pub fn new(position: Vec2, velocity: Vec2, acceleration: Vec2, shape: Shape, mass: i64) -> (b:
        Body)
        requires
            0 < mass <= MASS_LIMIT,
            shape matches Shape::Circle(c) ==> 0 <= c.radius <= CIRCLE_RADIUS_LIMIT,
        ensures
            b.wf(),
            b.position == position,
            b.velocity == velocity,
            b.acceleration == acceleration,
            b.sum_of_forces.is_zero(),
            b.shape == shape,
            b.display_radius == 20_000,
            b.mass == mass,
            b.rotation == 0,
            b.angular_velocity == 0,
            b.angular_acceleration == 0,
            b.sum_of_torque == 0,
            b.inv_inertia == inv_inertia_spec(shape, mass as int),
    {
        Body::assemble(position, velocity, acceleration, shape, mass, 20_000, 0, 0, 0, 0)
    }

    /// A body at exactly `(x, y)` — the spawn coordinate is never
    /// perturbed — with a random shape (circle or square polygon, an even
    /// choice), kinematics drawn from the configuration's spawn ranges,
    /// rotational state drawn from `[1, 100)` units, and the observed
    /// small display radius of 5 units.
    pub fn new_random(x: i64, y: i64, cfg: &WorldConfig) -> (b: Body)
        requires
            cfg.wf(),
            -WORLD_LIMIT <= x <= WORLD_LIMIT,
            -WORLD_LIMIT <= y <= WORLD_LIMIT,
        ensures
            b.wf(),
            b.position == (Vec2 { x, y }),
            cfg.spawn_velocity_min <= b.velocity.x < cfg.spawn_velocity_max,
            cfg.spawn_velocity_min <= b.velocity.y < cfg.spawn_velocity_max,
            cfg.spawn_accel_min <= b.acceleration.x < cfg.spawn_accel_max,
            cfg.spawn_accel_min <= b.acceleration.y < cfg.spawn_accel_max,
            cfg.spawn_mass_min <= b.mass < cfg.spawn_mass_max,
            b.sum_of_forces.is_zero(),
            b.display_radius == 5_000,
            b.shape matches Shape::Circle(c) ==> c.x == x && c.y == y && 100 <= c.radius
                <= 10_000 && c.angle == 0,
            b.shape matches Shape::Polygon(poly) ==> ({
                let h = poly.vertices@[1].x - x;
                &&& poly.x == 5_000
                &&& poly.y == 5_000
                &&& poly.vertices@.len() == 4
                &&& 0 <= h <= 5_000
                &&& poly.vertices@[0] == (Vec2 { x: (x - h) as i64, y: (y + h) as i64 })
                &&& poly.vertices@[1] == (Vec2 { x: (x + h) as i64, y: (y + h) as i64 })
                &&& poly.vertices@[2] == (Vec2 { x: (x + h) as i64, y: (y - h) as i64 })
                &&& poly.vertices@[3] == (Vec2 { x: (x - h) as i64, y: (y - h) as i64 })
            }),
            1_000 <= b.rotation < 100_000,
            1_000 <= b.angular_velocity < 100_000,
            1_000 <= b.angular_acceleration < 100_000,
            1_000 <= b.sum_of_torque < 100_000,
    {
        let mut rng = crate::rng::new_rng();
        let vx = crate::rng::sample_range(&mut rng, cfg.spawn_velocity_min, cfg.spawn_velocity_max);
        let vy = crate::rng::sample_range(&mut rng, cfg.spawn_velocity_min, cfg.spawn_velocity_max);
        let ax = crate::rng::sample_range(&mut rng, cfg.spawn_accel_min, cfg.spawn_accel_max);
        let ay = crate::rng::sample_range(&mut rng, cfg.spawn_accel_min, cfg.spawn_accel_max);
        let mass = crate::rng::sample_range(&mut rng, cfg.spawn_mass_min, cfg.spawn_mass_max);
        let coin = crate::rng::sample_range(&mut rng, 0, 2);
        let shape: Shape = if coin == 0 {
            Shape::Circle(crate::shape::Circle::new_rand(x, y))
        } else {
            Shape::Polygon(crate::shape::Polygon::new_rand(x, y))
        };
        let rotation = crate::rng::sample_range(&mut rng, 1_000, 100_000);
        let angular_velocity = crate::rng::sample_range(&mut rng, 1_000, 100_000);
        let angular_acceleration = crate::rng::sample_range(&mut rng, 1_000, 100_000);
        let sum_of_torque = crate::rng::sample_range(&mut rng, 1_000, 100_000);
        Body::assemble(
            Vec2 { x, y },
            Vec2 { x: vx, y: vy },
            Vec2 { x: ax, y: ay },
            shape,
            mass,
            5_000,
            rotation,
            angular_velocity,
            angular_acceleration,
            sum_of_torque,
        )
    }

    pub fn position(&self) -> (r: Vec2)
        ensures
            r == self.position,
    {
        self.position
    }

    pub fn radius(&self) -> (r: i64)
        ensures
            r == self.display_radius,
    {
        self.display_radius
    }

    pub fn velocity(&self) -> (r: Vec2)
        ensures
            r == self.velocity,
    {
        self.velocity
    }

    pub fn shape(&self) -> (s: &Shape)
        ensures
            *s == self.shape,
    {
        &self.shape
    }

    pub fn mass(&self) -> (r: i64)
        ensures
            r == self.mass,
    {
        self.mass
    }

    /// The body's full moment of inertia: the shape's contribution scaled
    /// by the mass, when the shape has one.
    pub fn moment_of_inertia(&self) -> (m: Option<i64>)
        requires
            self.wf(),
        ensures
            match spec_moment_of_inertia(self.shape) {
                Some(ms) => m == Some(fx_mul_spec(ms, self.mass as int) as i64),
                None => m is None,
            },
    {
        match self.shape.moment_of_inertia() {
            Some(shape_moment) => {
                proof {
                    lemma_mul_abs_bound(shape_moment as int, self.mass as int, 500_000_000, MASS_LIMIT as int);
                }
                Some(fx_mul(shape_moment, self.mass))
            },
            None => None,
        }
    }

    /// Add a force into the per-step accumulator.
    pub fn add_force(&mut self, force: Vec2)
        requires
            i64::MIN <= old(self).sum_of_forces.x + force.x <= i64::MAX,
            i64::MIN <= old(self).sum_of_forces.y + force.y <= i64::MAX,
        ensures
            final(self).sum_of_forces.x == old(self).sum_of_forces.x + force.x,
            final(self).sum_of_forces.y == old(self).sum_of_forces.y + force.y,
            *final(self) == (Body { sum_of_forces: final(self).sum_of_forces, ..*old(self) }),
    {
        self.sum_of_forces = self.sum_of_forces.plus(force);
    }

    fn clear_forces(&mut self)
        ensures
            final(self).sum_of_forces.is_zero(),
            *final(self) == (Body { sum_of_forces: final(self).sum_of_forces, ..*old(self) }),
    {
        self.sum_of_forces = Vec2 { x: 0, y: 0 };
    }

    /// Add a torque into the per-step accumulator.
    pub fn add_torque(&mut self, torque: i64)
        requires
            i64::MIN <= old(self).sum_of_torque + torque <= i64::MAX,
        ensures
            final(self).sum_of_torque == old(self).sum_of_torque + torque,
            *final(self) == (Body { sum_of_torque: final(self).sum_of_torque, ..*old(self) }),
    {
        self.sum_of_torque = self.sum_of_torque + torque;
    }

    fn clear_torque(&mut self)
        ensures
            final(self).sum_of_torque == 0,
            *final(self) == (Body { sum_of_torque: 0, ..*old(self) }),
    {
        self.sum_of_torque = 0;
    }
}

/// Exactly one linear integration step of a body: as the particle's, and
/// the shape is carried along to the final position.
pub open spec fn integrate_linear_rel(pre: Body, post: Body, cfg: WorldConfig, dt: int) -> bool {
    let ax = fx_mul_spec(pre.sum_of_forces.x as int, pre.inv_mass as int);
    let ay = fx_mul_spec(pre.sum_of_forces.y as int, pre.inv_mass as int) + if cfg.gravity_enabled {
        cfg.gravity_accel as int
    } else {
        0
    };
    let vx = pre.velocity.x + fx_mul_spec(ax, dt);
    let vy = pre.velocity.y + fx_mul_spec(ay, dt);
    let rx = axis_response(
        pre.position.x + fx_mul_spec(vx, dt),
        vx,
        pre.display_radius as int,
        cfg.width as int,
        cfg.restitution as int,
    );
    let ry = axis_response(
        pre.position.y + fx_mul_spec(vy, dt),
        vy,
        pre.display_radius as int,
        cfg.height as int,
        cfg.restitution as int,
    );
    &&& post.position.x == rx.0
    &&& post.velocity.x == rx.1
    &&& post.position.y == ry.0
    &&& post.velocity.y == ry.1
    &&& post.acceleration.x == ax
    &&& post.acceleration.y == ay
    &&& post.sum_of_forces.is_zero()
    &&& post.shape == spec_update_y(spec_update_x(pre.shape, rx.0 as i64), ry.0 as i64)
    &&& post.display_radius == pre.display_radius
    &&& post.mass == pre.mass
    &&& post.inv_mass == pre.inv_mass
    &&& post.rotation == pre.rotation
    &&& post.angular_velocity == pre.angular_velocity
    &&& post.angular_acceleration == pre.angular_acceleration
    &&& post.sum_of_torque == pre.sum_of_torque
    &&& post.inv_inertia == pre.inv_inertia
}

/// Exactly one angular integration step: torque and inverse inertia in
/// place of force and inverse mass, then the shape's rotation update with
/// the accumulated rotation, then the torque accumulator cleared.
pub open spec fn integrate_angular_rel(pre: Body, post: Body, dt: int) -> bool {
    let aa = fx_mul_spec(pre.sum_of_torque as int, pre.inv_inertia as int);
    let av = pre.angular_velocity + fx_mul_spec(aa, dt);
    let rot = pre.rotation + fx_mul_spec(av, dt);
    &&& post.angular_acceleration == aa
    &&& post.angular_velocity == av
    &&& post.rotation == rot
    &&& post.shape == spec_rotate(pre.shape, rot)
    &&& post.sum_of_torque == 0
    &&& post.position == pre.position
    &&& post.velocity == pre.velocity
    &&& post.acceleration == pre.acceleration
    &&& post.sum_of_forces == pre.sum_of_forces
    &&& post.display_radius == pre.display_radius
    &&& post.mass == pre.mass
    &&& post.inv_mass == pre.inv_mass
    &&& post.inv_inertia == pre.inv_inertia
}

/// Exactly one full body step: the linear integration, then the angular
/// mirror on its result.
pub open spec fn body_update_rel(pre: Body, post: Body, cfg: WorldConfig, dt: int) -> bool {
    exists|mid: Body|
        #[trigger] integrate_linear_rel(pre, mid, cfg, dt) && integrate_angular_rel(mid, post, dt)
}

/// No spurious motion, for the shaped entity: at rest, with an empty force
/// accumulator, gravity disabled, and standing clear of the world's edges,
/// one step leaves position and velocity unchanged (whatever the angular
/// state does).
pub proof fn lemma_body_no_spurious_motion(pre: Body, post: Body, cfg: WorldConfig, dt: int)
    requires
        body_update_rel(pre, post, cfg, dt),
        pre.sum_of_forces.is_zero(),
        !cfg.gravity_enabled,
        pre.velocity.is_zero(),
        pre.display_radius <= pre.position.x,
        pre.position.x + pre.display_radius <= cfg.width,
        pre.display_radius <= pre.position.y,
        pre.position.y + pre.display_radius <= cfg.height,
    ensures
        post.position == pre.position,
        post.velocity == pre.velocity,
{
    let mid = choose|mid: Body|
        #[trigger] integrate_linear_rel(pre, mid, cfg, dt) && integrate_angular_rel(mid, post, dt);
    assert(0 * pre.inv_mass as int == 0) by (nonlinear_arith);
    assert(fx_mul_spec(0, pre.inv_mass as int) == 0);
    assert(fx_mul_spec(0, dt) == 0);
}

impl Body {
    /// The linear half of one step; mirrors the particle's integrator and
    /// carries the shape to the clamped position.
    fn integrate_linear(&mut self, cfg: &WorldConfig, delta_time: i64)
        requires
            old(self).wf(),
            cfg.wf(),
            old(self).step_fits(delta_time as int),
        ensures
            integrate_linear_rel(*old(self), *final(self), *cfg, delta_time as int),
            final(self).wf(),
            final(self).position.bounded(WORLD_LIMIT as int),
            abs(final(self).velocity.x as int) <= 8_100_000_000_000_000,
            abs(final(self).velocity.y as int) <= 8_100_000_000_000_000,
    {
        proof {
            lemma_mul_abs_bound(
                self.sum_of_forces.x as int,
                self.inv_mass as int,
                FORCE_LIMIT as int,
                1_000_000,
            );
            lemma_mul_abs_bound(
                self.sum_of_forces.y as int,
                self.inv_mass as int,
                FORCE_LIMIT as int,
                1_000_000,
            );
        }
        let ax: i64 = fx_mul(self.sum_of_forces.x, self.inv_mass);
        let mut ay: i64 = fx_mul(self.sum_of_forces.y, self.inv_mass);
        if cfg.gravity_enabled {
            ay = ay + cfg.gravity_accel;
        }
        self.acceleration = Vec2 { x: ax, y: ay };

        proof {
            lemma_mul_abs_bound(ax as int, delta_time as int, 8_000_001_000_000_000, DT_LIMIT as int);
            lemma_mul_abs_bound(ay as int, delta_time as int, 8_000_001_000_000_000, DT_LIMIT as int);
        }
        self.velocity = Vec2 {
            x: self.velocity.x + fx_mul(ax, delta_time),
            y: self.velocity.y + fx_mul(ay, delta_time),
        };

        self.update_x_position(cfg, delta_time);
        self.update_y_position(cfg, delta_time);
        self.clear_forces();
    }

    /// One axis of the position update and boundary response, along `x`;
    /// the shape follows the clamped coordinate.
    fn update_x_position(&mut self, cfg: &WorldConfig, delta_time: i64)
        requires
            cfg.wf(),
            0 < delta_time <= DT_LIMIT,
            abs(old(self).position.x as int) <= KINEMATIC_LIMIT as int,
            abs(old(self).velocity.x as int) <= 8_100_000_000_000_000,
            0 <= old(self).display_radius <= WORLD_LIMIT,
        ensures
            ({
                let r = axis_response(
                    old(self).position.x + fx_mul_spec(old(self).velocity.x as int, delta_time as int),
                    old(self).velocity.x as int,
                    old(self).display_radius as int,
                    cfg.width as int,
                    cfg.restitution as int,
                );
                &&& final(self).position.x == r.0
                &&& final(self).velocity.x == r.1
                &&& final(self).shape == spec_update_x(old(self).shape, r.0 as i64)
            }),
            abs(final(self).position.x as int) <= WORLD_LIMIT as int,
            abs(final(self).velocity.x as int) <= 8_100_000_000_000_000,
            final(self).position.y == old(self).position.y,
            final(self).velocity.y == old(self).velocity.y,
            final(self).acceleration == old(self).acceleration,
            final(self).sum_of_forces == old(self).sum_of_forces,
            final(self).display_radius == old(self).display_radius,
            final(self).mass == old(self).mass,
            final(self).inv_mass == old(self).inv_mass,
            final(self).rotation == old(self).rotation,
            final(self).angular_velocity == old(self).angular_velocity,
            final(self).angular_acceleration == old(self).angular_acceleration,
            final(self).sum_of_torque == old(self).sum_of_torque,
            final(self).inv_inertia == old(self).inv_inertia,
    {
        proof {
            lemma_mul_abs_bound(
                self.velocity.x as int,
                delta_time as int,
                8_100_000_000_000_000,
                DT_LIMIT as int,
            );
        }
        let shift: i64 = fx_mul(self.velocity.x, delta_time);
        let mut new_x: i64 = self.position.x + shift;
        if new_x - self.display_radius < 0 {
            proof {
                lemma_mul_abs_bound(
                    self.velocity.x as int,
                    -(cfg.restitution as int),
                    8_100_000_000_000_000,
                    1000,
                );
            }
            new_x = self.display_radius;
            self.velocity = Vec2 { x: fx_mul(self.velocity.x, -cfg.restitution), y: self.velocity.y };
        } else if new_x + self.display_radius > cfg.width {
            proof {
                lemma_mul_abs_bound(
                    self.velocity.x as int,
                    -(cfg.restitution as int),
                    8_100_000_000_000_000,
                    1000,
                );
            }
            new_x = cfg.width - self.display_radius;
            self.velocity = Vec2 { x: fx_mul(self.velocity.x, -cfg.restitution), y: self.velocity.y };
        }
        self.position = Vec2 { x: new_x, y: self.position.y };
        self.shape.update_x(new_x);
    }

    /// One axis of the position update and boundary response, along `y`;
    /// the shape follows the clamped coordinate.
    fn update_y_position(&mut self, cfg: &WorldConfig, delta_time: i64)
        requires
            cfg.wf(),
            0 < delta_time <= DT_LIMIT,
            abs(old(self).position.y as int) <= KINEMATIC_LIMIT as int,
            abs(old(self).velocity.y as int) <= 8_100_000_000_000_000,
            0 <= old(self).display_radius <= WORLD_LIMIT,
        ensures
            ({
                let r = axis_response(
                    old(self).position.y + fx_mul_spec(old(self).velocity.y as int, delta_time as int),
                    old(self).velocity.y as int,
                    old(self).display_radius as int,
                    cfg.height as int,
                    cfg.restitution as int,
                );
                &&& final(self).position.y == r.0
                &&& final(self).velocity.y == r.1
                &&& final(self).shape == spec_update_y(old(self).shape, r.0 as i64)
            }),
            abs(final(self).position.y as int) <= WORLD_LIMIT as int,
            abs(final(self).velocity.y as int) <= 8_100_000_000_000_000,
            final(self).position.x == old(self).position.x,
            final(self).velocity.x == old(self).velocity.x,
            final(self).acceleration == old(self).acceleration,
            final(self).sum_of_forces == old(self).sum_of_forces,
            final(self).display_radius == old(self).display_radius,
            final(self).mass == old(self).mass,
            final(self).inv_mass == old(self).inv_mass,
            final(self).rotation == old(self).rotation,
            final(self).angular_velocity == old(self).angular_velocity,
            final(self).angular_acceleration == old(self).angular_acceleration,
            final(self).sum_of_torque == old(self).sum_of_torque,
            final(self).inv_inertia == old(self).inv_inertia,
    {
        proof {
            lemma_mul_abs_bound(
                self.velocity.y as int,
                delta_time as int,
                8_100_000_000_000_000,
                DT_LIMIT as int,
            );
        }
        let shift: i64 = fx_mul(self.velocity.y, delta_time);
        let mut new_y: i64 = self.position.y + shift;
        if new_y - self.display_radius < 0 {
            proof {
                lemma_mul_abs_bound(
                    self.velocity.y as int,
                    -(cfg.restitution as int),
                    8_100_000_000_000_000,
                    1000,
                );
            }
            new_y = self.display_radius;
            self.velocity = Vec2 { x: self.velocity.x, y: fx_mul(self.velocity.y, -cfg.restitution) };
        } else if new_y + self.display_radius > cfg.height {
            proof {
                lemma_mul_abs_bound(
                    self.velocity.y as int,
                    -(cfg.restitution as int),
                    8_100_000_000_000_000,
                    1000,
                );
            }
            new_y = cfg.height - self.display_radius;
            self.velocity = Vec2 { x: self.velocity.x, y: fx_mul(self.velocity.y, -cfg.restitution) };
        }
        self.position = Vec2 { x: self.position.x, y: new_y };
        self.shape.update_y(new_y);
    }

    /// The angular half of one step: torque and inverse inertia mirror
    /// force and inverse mass, then the shape's rotation update runs with
    /// the accumulated rotation, and the torque accumulator clears.
    fn integrate_angular(&mut self, delta_time: i64)
        requires
            old(self).wf(),
            0 < delta_time <= DT_LIMIT,
            abs(old(self).sum_of_torque as int) <= FORCE_LIMIT as int,
            abs(old(self).angular_velocity as int) <= KINEMATIC_LIMIT as int,
            abs(old(self).rotation as int) <= KINEMATIC_LIMIT as int,
            old(self).shape matches Shape::Circle(c) ==> abs(c.angle as int) <= ANGLE_LIMIT as int,
        ensures
            integrate_angular_rel(*old(self), *final(self), delta_time as int),
            final(self).wf(),
    {
        proof {
            lemma_mul_abs_bound(
                self.sum_of_torque as int,
                self.inv_inertia as int,
                FORCE_LIMIT as int,
                1_000_000,
            );
        }
        let aa: i64 = fx_mul(self.sum_of_torque, self.inv_inertia);
        self.angular_acceleration = aa;
        proof {
            lemma_mul_abs_bound(aa as int, delta_time as int, 8_000_000_000_000_000, DT_LIMIT as int);
        }
        self.angular_velocity = self.angular_velocity + fx_mul(aa, delta_time);
        proof {
            lemma_mul_abs_bound(
                self.angular_velocity as int,
                delta_time as int,
                8_001_000_000_000_000,
                DT_LIMIT as int,
            );
        }
        self.rotation = self.rotation + fx_mul(self.angular_velocity, delta_time);
        self.shape.rotate(self.rotation);
        self.clear_torque();
    }

    /// One full body step: the linear integration (forces, semi-implicit
    /// Euler, boundary response, accumulator clear), then its angular
    /// mirror.
    pub fn update(&mut self, cfg: &WorldConfig, delta_time: i64)
        requires
            old(self).wf(),
            cfg.wf(),
            old(self).step_fits(delta_time as int),
        ensures
            body_update_rel(*old(self), *final(self), *cfg, delta_time as int),
            final(self).wf(),
            final(self).sum_of_forces.is_zero(),
            final(self).sum_of_torque == 0,
            final(self).position.bounded(WORLD_LIMIT as int),
    {
        self.integrate_linear(cfg, delta_time);
        let ghost mid: Body = *self;
        self.integrate_angular(delta_time);
        proof {
            assert(integrate_linear_rel(*old(self), mid, *cfg, delta_time as int)
                && integrate_angular_rel(mid, *self, delta_time as int));
        }
    }
}

} // verus!

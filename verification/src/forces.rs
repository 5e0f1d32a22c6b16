//! Force generators: stateless functions from kinematic state to force
//! vectors.  Callers add the results into an entity's accumulator; nothing
//! here touches an entity.

use vstd::prelude::*;
use vstd::math::abs;
use crate::config::{COEFF_LIMIT, GRAV_CONST_LIMIT, WORLD_LIMIT, KINEMATIC_LIMIT};
use crate::fixed::{
    fx_mul, fx_div, fx_mul_spec, fx_div_spec, clamp_i64, clamp_spec, tdiv, div_trunc,
    lemma_mul_abs_bound, lemma_div_bound_scale, lemma_unit_ratio_bound, lemma_fx_mul_sign,
    lemma_tdiv_decomposition,
};
use crate::particle::Particle;
use crate::vec2::Vec2;

verus! {

/// Smallest squared distance the attraction model accepts, a stability
/// floor against the singularity of the inverse-square law.
pub const DIST_SQ_MIN: i64 = 5_000;

/// Largest squared distance the attraction model accepts, keeping the
/// pixel-scale force visually meaningful.
pub const DIST_SQ_MAX: i64 = 100_000;

/// Largest magnitude a gravitational force component can reach under the
/// configured mass and constant limits.
pub const GRAV_FORCE_LIMIT: i64 = 4_000_000_000_000;

/// Largest velocity magnitude the quadratic drag computation accepts.
pub const DRAG_SPEED_LIMIT: i64 = 1_000_000;

/// The exact quadratic drag force: zero on a resting body, otherwise the
/// reversed velocity scaled by `k` times the speed — which gives magnitude
/// `k` times the squared speed along `-v / |v|`.  Scaling `-v` directly by
/// the one shared scalar `k * |v|` leaves a single truncation per
/// component, so the direction tilts by less than one raw step per axis
/// (see the tilt-bound lemma below).
pub open spec fn drag_force_spec(v: Vec2, k: int) -> (int, int) {
    let n = v.norm_spec();
    if n == 0 {
        (0, 0)
    } else {
        let m = fx_mul_spec(k, n);
        (fx_mul_spec(m, -v.x), fx_mul_spec(m, -v.y))
    }
}

/// The exact pairwise attraction force on the first body: displacement
/// toward the second, squared distance clamped into
/// `[DIST_SQ_MIN, DIST_SQ_MAX]`, magnitude `g * ma * mb` over that, along
/// the unit displacement.
pub open spec fn grav_force_spec(pa: Vec2, pb: Vec2, ma: int, mb: int, g: int) -> (int, int) {
    let d = Vec2 { x: (pb.x - pa.x) as i64, y: (pb.y - pa.y) as i64 };
    let dist2 = clamp_spec(tdiv(d.norm_sq_raw(), 1000), DIST_SQ_MIN as int, DIST_SQ_MAX as int);
    let n = d.norm_spec();
    let mag = fx_mul_spec(g, fx_div_spec(fx_mul_spec(ma, mb), dist2));
    (fx_mul_spec(mag, fx_div_spec(d.x as int, n)), fx_mul_spec(mag, fx_div_spec(d.y as int, n)))
}

/// Quadratic drag opposing motion: zero exactly at rest, otherwise of
/// magnitude `k` times the squared speed, and each component opposes the
/// matching velocity component, so the force never pushes along the
/// motion.
pub fn generate_drag_force(velocity: Vec2, k: i64) -> (drag: Vec2)
    requires
        velocity.bounded(DRAG_SPEED_LIMIT as int),
        0 <= k <= COEFF_LIMIT,
    ensures
        (drag.x as int, drag.y as int) == drag_force_spec(velocity, k as int),
        drag.bounded(3_000_000_000_000),
        velocity.is_zero() ==> drag.is_zero(),
        drag.x * velocity.x <= 0,
        drag.y * velocity.y <= 0,
        drag.x * velocity.x + drag.y * velocity.y <= 0,
{
    let n: i64 = velocity.norm();
    if n == 0 {
        proof {
            assert(0 * velocity.x == 0 && 0 * velocity.y == 0) by (nonlinear_arith);
        }
        Vec2 { x: 0, y: 0 }
    } else {
        proof {
            lemma_mul_abs_bound(
                velocity.x as int,
                velocity.x as int,
                DRAG_SPEED_LIMIT as int,
                DRAG_SPEED_LIMIT as int,
            );
            lemma_mul_abs_bound(
                velocity.y as int,
                velocity.y as int,
                DRAG_SPEED_LIMIT as int,
                DRAG_SPEED_LIMIT as int,
            );
            assert(n as int <= 1_414_214) by (nonlinear_arith)
                requires
                    0 <= n as int,
                    (n as int) * (n as int) <= 2_000_000_000_000,
            ;
            lemma_mul_abs_bound(k as int, n as int, COEFF_LIMIT as int, 1_414_214);
        }
        let m: i64 = fx_mul(k, n);
        proof {
            lemma_fx_mul_sign(k as int, n as int);
            lemma_mul_abs_bound(m as int, -velocity.x as int, 1_414_214_000, DRAG_SPEED_LIMIT as int);
            lemma_mul_abs_bound(m as int, -velocity.y as int, 1_414_214_000, DRAG_SPEED_LIMIT as int);
        }
        let fx_c: i64 = fx_mul(m, -velocity.x);
        let fy_c: i64 = fx_mul(m, -velocity.y);
        proof {
            lemma_fx_mul_sign(m as int, -velocity.x as int);
            lemma_fx_mul_sign(m as int, -velocity.y as int);
            assert(fx_c * velocity.x <= 0) by (nonlinear_arith)
                requires
                    velocity.x >= 0 ==> fx_c <= 0,
                    velocity.x <= 0 ==> fx_c >= 0,
            ;
            assert(fy_c * velocity.y <= 0) by (nonlinear_arith)
                requires
                    velocity.y >= 0 ==> fy_c <= 0,
                    velocity.y <= 0 ==> fy_c >= 0,
            ;
        }
        Vec2 { x: fx_c, y: fy_c }
    }
}

/// On axis-aligned motion the drag is exactly anti-parallel to the
/// velocity: the transverse force component is zero, so the cross product
/// of force and velocity vanishes while the longitudinal component
/// opposes the motion.
pub proof fn lemma_drag_antiparallel_on_axis(v: Vec2, k: int)
    requires
        v.y == 0,
    ensures
        drag_force_spec(v, k).1 == 0,
        drag_force_spec(v, k).0 * v.y == drag_force_spec(v, k).1 * v.x,
{
    let n = v.norm_spec();
    if n != 0 {
        let m = fx_mul_spec(k, n);
        assert(m * -v.y == 0) by (nonlinear_arith)
            requires
                v.y == 0,
        ;
        vstd::arithmetic::div_mod::lemma_div_basics(1000);
        assert(fx_mul_spec(m, 0) == 0);
    }
    assert(drag_force_spec(v, k).1 == 0);
    assert(drag_force_spec(v, k).0 * v.y == 0) by (nonlinear_arith)
        requires
            v.y == 0,
    ;
    assert(0 * v.x == 0) by (nonlinear_arith);
}

/// On any velocity the drag's direction tilts from exact anti-parallelism
/// by less than one raw step per component: the cross product of force
/// and velocity is bounded by the sum of the velocity's component
/// magnitudes.  (Each force component carries a single truncation of at
/// most a thousandth of a raw step times the scale, and those two
/// roundings are all that separates the force from a true negative
/// multiple of the velocity.)
pub proof fn lemma_drag_tilt_bound(v: Vec2, k: int)
    ensures
        ({
            let f = drag_force_spec(v, k);
            abs(f.0 * v.y - f.1 * v.x) <= abs(v.x as int) + abs(v.y as int)
        }),
{
    let n = v.norm_spec();
    let f = drag_force_spec(v, k);
    if n == 0 {
        assert(0 * v.y == 0 && 0 * v.x == 0) by (nonlinear_arith);
    } else {
        let m = fx_mul_spec(k, n);
        let ax = m * (-v.x as int);
        let ay = m * (-v.y as int);
        let qx = tdiv(ax, 1000);
        let qy = tdiv(ay, 1000);
        let sx = ax - 1000 * qx;
        let sy = ay - 1000 * qy;
        lemma_tdiv_decomposition(ax, 1000);
        lemma_tdiv_decomposition(ay, 1000);
        assert(1000 * (qx * v.y - qy * v.x) == sy * v.x - sx * v.y) by (nonlinear_arith)
            requires
                ax == m * (-v.x as int),
                ay == m * (-v.y as int),
                sx == ax - 1000 * qx,
                sy == ay - 1000 * qy,
        ;
        lemma_mul_abs_bound(sx, v.y as int, 999, abs(v.y as int) as int);
        lemma_mul_abs_bound(sy, v.x as int, 999, abs(v.x as int) as int);
        assert(f.0 == qx && f.1 == qy);
    }
}

/// Linear friction: the velocity scaled by `-k`, component by component.
pub fn generate_friction_force(velocity: Vec2, k: i64) -> (friction: Vec2)
    requires
        velocity.bounded(KINEMATIC_LIMIT as int),
        0 <= k <= COEFF_LIMIT,
    ensures
        friction.x == fx_mul_spec(velocity.x as int, -k as int),
        friction.y == fx_mul_spec(velocity.y as int, -k as int),
{
    proof {
        lemma_mul_abs_bound(velocity.x as int, -k as int, KINEMATIC_LIMIT as int, COEFF_LIMIT as int);
        lemma_mul_abs_bound(velocity.y as int, -k as int, KINEMATIC_LIMIT as int, COEFF_LIMIT as int);
    }
    Vec2 { x: fx_mul(velocity.x, -k), y: fx_mul(velocity.y, -k) }
}

/// Pairwise inverse-square attraction on two non-coincident bodies; the
/// two returned forces are exact negations of each other — Newton's third
/// law holds to the bit.
pub fn generate_gravitational_force(
    particle_one: &Particle,
    particle_two: &Particle,
    gravitational_constant: i64,
) -> (forces: (Vec2, Vec2))
    requires
        particle_one.wf(),
        particle_two.wf(),
        particle_one.position.bounded(WORLD_LIMIT as int),
        particle_two.position.bounded(WORLD_LIMIT as int),
        particle_one.position != particle_two.position,
        0 <= gravitational_constant <= GRAV_CONST_LIMIT,
    ensures
        (forces.0.x as int, forces.0.y as int) == grav_force_spec(
            particle_one.position,
            particle_two.position,
            particle_one.mass as int,
            particle_two.mass as int,
            gravitational_constant as int,
        ),
        forces.1.x == -forces.0.x,
        forces.1.y == -forces.0.y,
        forces.0.bounded(GRAV_FORCE_LIMIT as int),
        forces.1.bounded(GRAV_FORCE_LIMIT as int),
{
    let dx: i64 = particle_two.position.x - particle_one.position.x;
    let dy: i64 = particle_two.position.y - particle_one.position.y;
    let difference = Vec2 { x: dx, y: dy };
    proof {
        assert(difference.x != 0 || difference.y != 0);
    }
    let n: i64 = difference.norm();
    proof {
        assert(difference.norm_sq_raw() == difference.x * difference.x + difference.y
            * difference.y);
        lemma_mul_abs_bound(difference.x as int, difference.x as int, 2_000_000_000, 2_000_000_000);
        lemma_mul_abs_bound(difference.y as int, difference.y as int, 2_000_000_000, 2_000_000_000);
    }
    let sx: i64 = dx * dx;
    let sy: i64 = dy * dy;
    let norm_sq: i64 = div_trunc(sx + sy, 1000);
    let dist2: i64 = clamp_i64(norm_sq, DIST_SQ_MIN, DIST_SQ_MAX);

    proof {
        lemma_mul_abs_bound(
            particle_one.mass as int,
            particle_two.mass as int,
            10_000_000,
            10_000_000,
        );
    }
    let mm: i64 = fx_mul(particle_one.mass, particle_two.mass);
    let q: i64 = fx_div(mm, dist2);
    proof {
        lemma_div_bound_scale(abs(q as int) as int, dist2 as int, DIST_SQ_MIN as int,
            (1000 * abs(mm as int)) as int);
        lemma_mul_abs_bound(gravitational_constant as int, q as int, GRAV_CONST_LIMIT as int,
            20_000_000_000);
    }
    let mag: i64 = fx_mul(gravitational_constant, q);

    let ux: i64 = fx_div(dx, n);
    let uy: i64 = fx_div(dy, n);
    proof {
        lemma_unit_ratio_bound(abs(ux as int) as int, abs(dx as int) as int, n as int);
        lemma_unit_ratio_bound(abs(uy as int) as int, abs(dy as int) as int, n as int);
        lemma_mul_abs_bound(mag as int, ux as int, GRAV_FORCE_LIMIT as int, 1000);
        lemma_mul_abs_bound(mag as int, uy as int, GRAV_FORCE_LIMIT as int, 1000);
    }
    let attraction = Vec2 { x: fx_mul(mag, ux), y: fx_mul(mag, uy) };
    (attraction, attraction.negated())
}

} // verus!

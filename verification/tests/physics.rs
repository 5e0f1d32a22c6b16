//! The numeric core: fixed-point scalars, vectors, force generators, and
//! the particle integrator on exact scenarios.

use rusty_physics::config::WorldConfig;
use rusty_physics::fixed::{clamp_i64, div_trunc, fx_div, fx_mul, isqrt_u64};
use rusty_physics::forces::{
    generate_drag_force, generate_friction_force, generate_gravitational_force,
};
use rusty_physics::particle::Particle;
use rusty_physics::vec2::Vec2;

#[test]
fn fixed_point_products_truncate_toward_zero() {
    assert_eq!(fx_mul(2_000, 3_000), 6_000);
    assert_eq!(fx_mul(7, -500), -3);
    assert_eq!(fx_mul(-7, 500), -3);
    assert_eq!(fx_mul(-7, -500), 3);
    assert_eq!(fx_mul(0, 123_456), 0);
}

#[test]
fn fixed_point_quotients_truncate_toward_zero() {
    assert_eq!(fx_div(1_000, 3_000), 333);
    assert_eq!(fx_div(-1_000, 3_000), -333);
    assert_eq!(fx_div(1_000, 1_000), 1_000);
    assert_eq!(div_trunc(-11_312, 1_000), -11);
    assert_eq!(div_trunc(-176, 1_000), 0);
}

#[test]
fn integer_square_root_rounds_down() {
    assert_eq!(isqrt_u64(0), 0);
    assert_eq!(isqrt_u64(1), 1);
    assert_eq!(isqrt_u64(3), 1);
    assert_eq!(isqrt_u64(4), 2);
    assert_eq!(isqrt_u64(340_000), 583);
    assert_eq!(isqrt_u64(20_000_000_000), 141_421);
    assert_eq!(isqrt_u64(u64::MAX), 4_294_967_295);
}

#[test]
fn clamp_pins_values_into_the_interval() {
    assert_eq!(clamp_i64(20_000_000, 5_000, 100_000), 100_000);
    assert_eq!(clamp_i64(1_000, 5_000, 100_000), 5_000);
    assert_eq!(clamp_i64(50_000, 5_000, 100_000), 50_000);
}

#[test]
fn vector_norm_is_exact_on_pythagorean_triples() {
    assert_eq!(Vec2 { x: 3_000, y: 4_000 }.norm(), 5_000);
    assert_eq!(Vec2 { x: 0, y: 0 }.norm(), 0);
    assert_eq!(Vec2 { x: -3_000, y: 4_000 }.norm(), 5_000);
    assert_eq!(Vec2 { x: 100_000, y: -100_000 }.norm(), 141_421);
}

#[test]
fn drag_of_resting_body_is_zero() {
    let d = generate_drag_force(Vec2 { x: 0, y: 0 }, 2_000);
    assert_eq!(d, Vec2 { x: 0, y: 0 });
}

#[test]
fn drag_magnitude_is_quadratic_in_speed() {
    // Speed 2 at k = 1: magnitude k * |v|^2 = 4, against the motion.
    let d = generate_drag_force(Vec2 { x: 2_000, y: 0 }, 1_000);
    assert_eq!(d, Vec2 { x: -4_000, y: 0 });
    // Speed 4 at k = 1: magnitude 16 — four times the force at twice the
    // speed, where a linear law would only double it.
    let d2 = generate_drag_force(Vec2 { x: -4_000, y: 0 }, 1_000);
    assert_eq!(d2, Vec2 { x: 16_000, y: 0 });
}

#[test]
fn drag_opposes_motion_componentwise() {
    let v = Vec2 { x: 300, y: 500 };
    let d = generate_drag_force(v, 2_000);
    assert_eq!(d, Vec2 { x: -349, y: -583 });
    assert!(d.x * v.x <= 0);
    assert!(d.y * v.y <= 0);
    assert!(d.x * v.x + d.y * v.y < 0);
    // The truncation tilt stays under one raw step per component: the
    // cross product is bounded by |v.x| + |v.y|.
    let cross = d.x * v.y - d.y * v.x;
    assert!(cross.abs() <= v.x.abs() + v.y.abs());
}

#[test]
fn friction_scales_velocity_by_minus_k() {
    let f = generate_friction_force(Vec2 { x: 2_000, y: -3_000 }, 5_000);
    assert_eq!(f, Vec2 { x: -10_000, y: 15_000 });
    let zero = generate_friction_force(Vec2 { x: 0, y: 0 }, 5_000);
    assert_eq!(zero, Vec2 { x: 0, y: 0 });
}

#[test]
fn gravitational_forces_are_exact_negations() {
    let a = Particle::new(
        Vec2 { x: 200_000, y: 300_000 },
        Vec2 { x: 0, y: 0 },
        Vec2 { x: 0, y: 0 },
        10_000,
    );
    let b = Particle::new(
        Vec2 { x: 300_000, y: 200_000 },
        Vec2 { x: 0, y: 0 },
        Vec2 { x: 0, y: 0 },
        1_000,
    );
    let (on_a, on_b) = generate_gravitational_force(&a, &b, 100_000);
    assert_eq!(on_a, Vec2 { x: 7_070, y: -7_070 });
    assert_eq!(on_b, Vec2 { x: -7_070, y: 7_070 });
    assert_eq!(on_b.x, -on_a.x);
    assert_eq!(on_b.y, -on_a.y);

    // An asymmetric pair: the negation still holds to the bit.
    let c = Particle::new(
        Vec2 { x: 11_000, y: 47_000 },
        Vec2 { x: 0, y: 0 },
        Vec2 { x: 0, y: 0 },
        7_700,
    );
    let d = Particle::new(
        Vec2 { x: 391_000, y: 12_345 },
        Vec2 { x: 0, y: 0 },
        Vec2 { x: 0, y: 0 },
        31,
    );
    let (on_c, on_d) = generate_gravitational_force(&c, &d, 100_000);
    assert_eq!(on_d.x, -on_c.x);
    assert_eq!(on_d.y, -on_c.y);
}

#[test]
fn gravitational_distance_clamps_at_the_floor() {
    // One unit apart: the squared distance (1) clamps up to 5, so the
    // magnitude is G * m1 * m2 / 5 along the displacement.
    let a = Particle::new(
        Vec2 { x: 100_000, y: 100_000 },
        Vec2 { x: 0, y: 0 },
        Vec2 { x: 0, y: 0 },
        1_000,
    );
    let b = Particle::new(
        Vec2 { x: 101_000, y: 100_000 },
        Vec2 { x: 0, y: 0 },
        Vec2 { x: 0, y: 0 },
        1_000,
    );
    let (on_a, on_b) = generate_gravitational_force(&a, &b, 100_000);
    assert_eq!(on_a, Vec2 { x: 20_000, y: 0 });
    assert_eq!(on_b, Vec2 { x: -20_000, y: 0 });
}

#[test]
fn resting_particle_does_not_move() {
    // No accumulated force, gravity disabled, at rest and in bounds: one
    // step changes nothing kinematic.
    let cfg = WorldConfig::standard();
    let mut p = Particle::new(
        Vec2 { x: 400_000, y: 300_000 },
        Vec2 { x: 0, y: 0 },
        Vec2 { x: 0, y: 0 },
        5_000,
    );
    p.update(&cfg, 16);
    assert_eq!(p.position, Vec2 { x: 400_000, y: 300_000 });
    assert_eq!(p.velocity, Vec2 { x: 0, y: 0 });
}

#[test]
fn update_always_clears_the_accumulator() {
    let cfg = WorldConfig::standard();
    let mut p = Particle::new(
        Vec2 { x: 400_000, y: 300_000 },
        Vec2 { x: 1_000, y: -2_000 },
        Vec2 { x: 0, y: 0 },
        5_000,
    );
    p.add_force(Vec2 { x: 123_456, y: -654_321 });
    p.add_force(Vec2 { x: 1, y: 2 });
    assert_eq!(p.sum_of_forces, Vec2 { x: 123_457, y: -654_319 });
    p.update(&cfg, 16);
    assert_eq!(p.sum_of_forces, Vec2 { x: 0, y: 0 });

    // A clamped step clears it too.
    let mut q = Particle::new(
        Vec2 { x: 5_000, y: 300_000 },
        Vec2 { x: -90_000, y: 0 },
        Vec2 { x: 0, y: 0 },
        5_000,
    );
    q.add_force(Vec2 { x: -7, y: 7 });
    q.update(&cfg, 16);
    assert_eq!(q.sum_of_forces, Vec2 { x: 0, y: 0 });
}

#[test]
fn fast_entity_clamps_to_the_low_edge() {
    // At (5, 5) with radius 10 and velocity (-50, 0), one step at 0.1 s:
    // x clamps to the radius and the velocity is reversed at 90%.
    let cfg = WorldConfig::standard();
    let mut p = Particle::new(
        Vec2 { x: 5_000, y: 5_000 },
        Vec2 { x: -50_000, y: 0 },
        Vec2 { x: 0, y: 0 },
        1_000,
    );
    assert_eq!(p.radius(), 10_000);
    p.update(&cfg, 100);
    assert_eq!(p.position().x, 10_000);
    assert_eq!(p.velocity().x, 45_000);
    // The vertical axis penetrates the top edge too (5 < radius 10) and
    // clamps the same way; the resting component stays at rest.
    assert_eq!(p.position().y, 10_000);
    assert_eq!(p.velocity().y, 0);
}

#[test]
fn fast_entity_clamps_to_the_high_edge() {
    let cfg = WorldConfig::standard();
    let mut p = Particle::new(
        Vec2 { x: 795_000, y: 300_000 },
        Vec2 { x: 100_000, y: 0 },
        Vec2 { x: 0, y: 0 },
        1_000,
    );
    p.update(&cfg, 100);
    // Integrated x = 795 + 10 = 805; 805 + 10 > 800, so x = 800 - 10.
    assert_eq!(p.position().x, 790_000);
    assert_eq!(p.velocity().x, -90_000);
}

#[test]
fn integration_updates_velocity_before_position() {
    // Semi-implicit Euler: the position moves by the *new* velocity.
    // Force 500 on mass 1 for a full second from rest: acceleration 500,
    // velocity 500, and the position already moves by 500 * 1 s.
    let cfg = WorldConfig::standard();
    let mut p = Particle::new(
        Vec2 { x: 100_000, y: 300_000 },
        Vec2 { x: 0, y: 0 },
        Vec2 { x: 0, y: 0 },
        1_000,
    );
    p.add_force(Vec2 { x: 500_000, y: 0 });
    p.update(&cfg, 1_000);
    assert_eq!(p.acceleration.x, 500_000);
    assert_eq!(p.velocity().x, 500_000);
    assert_eq!(p.position().x, 600_000);
}

#[test]
fn construction_is_exact_and_zero_steps_change_nothing() {
    let first = Particle::new(
        Vec2 { x: 123_456, y: 234_567 },
        Vec2 { x: -7, y: 13 },
        Vec2 { x: 17, y: -19 },
        4_242,
    );
    let second = Particle::new(
        Vec2 { x: 123_456, y: 234_567 },
        Vec2 { x: -7, y: 13 },
        Vec2 { x: 17, y: -19 },
        4_242,
    );
    assert_eq!(first, second);
    assert_eq!(first.position(), Vec2 { x: 123_456, y: 234_567 });
    assert_eq!(first.velocity(), Vec2 { x: -7, y: 13 });
    assert_eq!(first.acceleration, Vec2 { x: 17, y: -19 });
    assert_eq!(first.sum_of_forces, Vec2 { x: 0, y: 0 });
    assert_eq!(first.mass(), 4_242);
    assert_eq!(first.radius(), 10_000);
}

#[test]
fn randomized_particle_spawns_at_the_exact_coordinate() {
    let cfg = WorldConfig::standard();
    for i in 0..32 {
        let x = 1_000 + 13 * i;
        let y = 2_000 + 7 * i;
        let p = Particle::new_random(x, y, &cfg);
        assert_eq!(p.position(), Vec2 { x, y });
        assert!(cfg.spawn_velocity_min <= p.velocity().x && p.velocity().x < cfg.spawn_velocity_max);
        assert!(cfg.spawn_velocity_min <= p.velocity().y && p.velocity().y < cfg.spawn_velocity_max);
        assert!(cfg.spawn_accel_min <= p.acceleration.x && p.acceleration.x < cfg.spawn_accel_max);
        assert!(cfg.spawn_mass_min <= p.mass() && p.mass() < cfg.spawn_mass_max);
        assert!(cfg.spawn_radius_min <= p.radius() && p.radius() < cfg.spawn_radius_max);
        assert_eq!(p.sum_of_forces, Vec2 { x: 0, y: 0 });
    }
}

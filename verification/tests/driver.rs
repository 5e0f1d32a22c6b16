//! The step driver: frame orchestration, input commands, spawning, the
//! liquid modifier, bodies with shapes, and frame pacing.

use rusty_physics::body::Body;
use rusty_physics::config::WorldConfig;
use rusty_physics::particle::Particle;
use rusty_physics::shape::{Circle, Polygon, Rgb, Shape};
use rusty_physics::vec2::Vec2;
use rusty_physics::world::{
    clamped_delta, control_force, frame_budget_ms, time_to_wait_ms, ControlInput, World,
};

#[test]
fn two_body_attraction_scenario() {
    // Two entities at (200,300) mass 10 and (300,200) mass 1, at rest,
    // G = 100, one step at dt = 0.016: equal and opposite attraction, and
    // both velocities now point toward the other body.
    let cfg = WorldConfig::standard();
    let mut w = World::new(cfg);
    w.add_particle(Particle::new(
        Vec2 { x: 200_000, y: 300_000 },
        Vec2 { x: 0, y: 0 },
        Vec2 { x: 0, y: 0 },
        10_000,
    ));
    w.add_particle(Particle::new(
        Vec2 { x: 300_000, y: 200_000 },
        Vec2 { x: 0, y: 0 },
        Vec2 { x: 0, y: 0 },
        1_000,
    ));
    w.step(16);
    let a = w.particles[0];
    let b = w.particles[1];
    // The heavier body accelerates less along the same line.
    assert_eq!(a.velocity, Vec2 { x: 11, y: -11 });
    assert_eq!(b.velocity, Vec2 { x: -113, y: 113 });
    // Both moved toward each other (the light one already by a pixel step).
    assert_eq!(a.position, Vec2 { x: 200_000, y: 300_000 });
    assert_eq!(b.position, Vec2 { x: 299_999, y: 200_001 });
    // Accumulators consumed.
    assert_eq!(a.sum_of_forces, Vec2 { x: 0, y: 0 });
    assert_eq!(b.sum_of_forces, Vec2 { x: 0, y: 0 });
}

#[test]
fn step_updates_every_particle() {
    let cfg = WorldConfig::standard();
    let mut w = World::new(cfg);
    w.add_particle(Particle::new(
        Vec2 { x: 200_000, y: 300_000 },
        Vec2 { x: 0, y: 0 },
        Vec2 { x: 0, y: 0 },
        10_000,
    ));
    w.add_particle(Particle::new(
        Vec2 { x: 300_000, y: 200_000 },
        Vec2 { x: 0, y: 0 },
        Vec2 { x: 0, y: 0 },
        1_000,
    ));
    // A third entity, outside the attracting pair, moving freely.
    w.add_particle(Particle::new(
        Vec2 { x: 400_000, y: 100_000 },
        Vec2 { x: 10_000, y: 0 },
        Vec2 { x: 0, y: 0 },
        1_000,
    ));
    w.step(16);
    let third = w.particles[2];
    // 400 + 10 * 0.016 = 400.160 units, velocity untouched.
    assert_eq!(third.position, Vec2 { x: 400_160, y: 100_000 });
    assert_eq!(third.velocity, Vec2 { x: 10_000, y: 0 });
}

#[test]
fn standard_scene_matches_the_reference_scenario() {
    let w = World::standard_scene();
    assert_eq!(w.particles.len(), 2);
    assert_eq!(w.particles[0].position, Vec2 { x: 200_000, y: 300_000 });
    assert_eq!(w.particles[0].mass, 10_000);
    assert_eq!(w.particles[1].position, Vec2 { x: 300_000, y: 200_000 });
    assert_eq!(w.particles[1].mass, 1_000);
    assert_eq!(w.liquid.x, 0);
    assert_eq!(w.liquid.y, 300_000);
    assert_eq!(w.liquid.width, 800_000);
    assert_eq!(w.liquid.height, 300_000);
    assert_eq!(w.config.width, 800_000);
    assert_eq!(w.config.height, 600_000);
    assert_eq!(w.config.restitution, 900);
}

#[test]
fn spawn_lands_exactly_on_the_click() {
    let cfg = WorldConfig::standard();
    let mut w = World::new(cfg);
    for i in 0..16 {
        let x = 50_000 + 31 * i;
        let y = 60_000 + 17 * i;
        w.spawn_at(x, y);
        let last = w.particles[w.particles.len() - 1];
        assert_eq!(last.position, Vec2 { x, y });
        assert_eq!(last.sum_of_forces, Vec2 { x: 0, y: 0 });
    }
    assert_eq!(w.particles.len(), 16);
}

#[test]
fn control_commands_map_to_the_fixed_impulse() {
    assert_eq!(control_force(ControlInput::Left), Vec2 { x: -500_000, y: 0 });
    assert_eq!(control_force(ControlInput::Right), Vec2 { x: 500_000, y: 0 });
    assert_eq!(control_force(ControlInput::Up), Vec2 { x: 0, y: -500_000 });
    assert_eq!(control_force(ControlInput::Down), Vec2 { x: 0, y: 500_000 });
    assert_eq!(control_force(ControlInput::Release), Vec2 { x: 0, y: 0 });
}

#[test]
fn control_impulse_lands_on_the_first_particle() {
    let mut w = World::standard_scene();
    w.apply_control(ControlInput::Right);
    w.apply_control(ControlInput::Up);
    assert_eq!(w.particles[0].sum_of_forces, Vec2 { x: 500_000, y: -500_000 });
    assert_eq!(w.particles[1].sum_of_forces, Vec2 { x: 0, y: 0 });
    w.apply_control(ControlInput::Release);
    assert_eq!(w.particles[0].sum_of_forces, Vec2 { x: 500_000, y: -500_000 });
}

#[test]
fn liquid_drag_applies_below_the_surface_only() {
    let cfg = WorldConfig::standard();
    let mut w = World::new(cfg);
    // In the liquid (y = 400 >= 300), moving: receives drag.
    w.add_particle(Particle::new(
        Vec2 { x: 100_000, y: 400_000 },
        Vec2 { x: 300, y: 500 },
        Vec2 { x: 0, y: 0 },
        1_000,
    ));
    // Above the liquid: untouched.
    w.add_particle(Particle::new(
        Vec2 { x: 100_000, y: 100_000 },
        Vec2 { x: 300, y: 500 },
        Vec2 { x: 0, y: 0 },
        1_000,
    ));
    w.apply_liquid_drag();
    assert_eq!(w.particles[0].sum_of_forces, Vec2 { x: -349, y: -583 });
    assert_eq!(w.particles[1].sum_of_forces, Vec2 { x: 0, y: 0 });
}

#[test]
fn zero_steps_leave_the_world_bit_identical() {
    let w = World::standard_scene();
    let again = World::standard_scene();
    assert_eq!(w.particles.len(), again.particles.len());
    for i in 0..w.particles.len() {
        assert_eq!(w.particles[i], again.particles[i]);
    }
    assert_eq!(w.config, again.config);
    assert_eq!(w.liquid, again.liquid);
}

#[test]
fn readiness_check_matches_the_frame_conditions() {
    let mut w = World::standard_scene();
    assert!(w.ready_for_step(16));
    assert!(w.ready_for_step(1));
    // A non-positive or over-cap time step is refused.
    assert!(!w.ready_for_step(0));
    assert!(!w.ready_for_step(17));
    // Coincident attracting pair is refused.
    let p0 = w.particles[0];
    w.particles[1] = rusty_physics::particle::Particle::new(
        p0.position,
        Vec2 { x: 0, y: 0 },
        Vec2 { x: 0, y: 0 },
        1_000,
    );
    assert!(!w.ready_for_step(16));
}

#[test]
fn frame_pacing_budget_and_clamp() {
    assert_eq!(frame_budget_ms(60), 16);
    assert_eq!(frame_budget_ms(30), 33);
    assert_eq!(time_to_wait_ms(1_010, 1_000, 16), 6);
    assert_eq!(time_to_wait_ms(1_020, 1_000, 16), 0);
    assert_eq!(clamped_delta(1_005, 1_000), 5);
    assert_eq!(clamped_delta(1_016, 1_000), 16);
    // A debugger pause or slow frame is clamped to 0.016 s.
    assert_eq!(clamped_delta(9_000, 1_000), 16);
    assert_eq!(clamped_delta(1_000, 1_000), 0);
}

#[test]
fn resting_body_does_not_move() {
    let cfg = WorldConfig::standard();
    let circle = Circle::new(400_000, 300_000, 1_000, Rgb { red: 0, green: 0, blue: 0 });
    let mut b = Body::new(
        Vec2 { x: 400_000, y: 300_000 },
        Vec2 { x: 0, y: 0 },
        Vec2 { x: 0, y: 0 },
        Shape::Circle(circle),
        2_000,
    );
    b.update(&cfg, 16);
    assert_eq!(b.position(), Vec2 { x: 400_000, y: 300_000 });
    assert_eq!(b.velocity(), Vec2 { x: 0, y: 0 });
    assert_eq!(b.rotation, 0);
    assert_eq!(b.angular_velocity, 0);
}

#[test]
fn body_update_clears_force_and_torque() {
    let cfg = WorldConfig::standard();
    let circle = Circle::new(100_000, 100_000, 1_000, Rgb { red: 9, green: 9, blue: 9 });
    let mut b = Body::new(
        Vec2 { x: 100_000, y: 100_000 },
        Vec2 { x: 0, y: 0 },
        Vec2 { x: 0, y: 0 },
        Shape::Circle(circle),
        2_000,
    );
    b.add_force(Vec2 { x: 44, y: -44 });
    b.add_torque(5_000);
    b.update(&cfg, 16);
    assert_eq!(b.sum_of_forces, Vec2 { x: 0, y: 0 });
    assert_eq!(b.sum_of_torque, 0);
}

#[test]
fn body_angular_mirror_integrates_torque() {
    // Circle radius 1, mass 2: inertia 0.5 * 1 * 2 = 1, inverse 1.
    // Torque 5 for one second from rest: angular velocity 5, rotation 5,
    // and the circle's angle marker advances by the rotation.
    let cfg = WorldConfig::standard();
    let circle = Circle::new(100_000, 100_000, 1_000, Rgb { red: 0, green: 0, blue: 0 });
    let mut b = Body::new(
        Vec2 { x: 100_000, y: 100_000 },
        Vec2 { x: 0, y: 0 },
        Vec2 { x: 0, y: 0 },
        Shape::Circle(circle),
        2_000,
    );
    assert_eq!(b.moment_of_inertia(), Some(1_000));
    b.add_torque(5_000);
    b.update(&cfg, 1_000);
    assert_eq!(b.angular_acceleration, 5_000);
    assert_eq!(b.angular_velocity, 5_000);
    assert_eq!(b.rotation, 5_000);
    match &b.shape {
        Shape::Circle(c) => {
            assert_eq!(c.angle, 5_000);
            // The linear step carried the shape to the body's position.
            assert_eq!(c.x, 100_000);
            assert_eq!(c.y, 100_000);
        }
        Shape::Polygon(_) => panic!("the shape was constructed as a circle"),
    }
}

#[test]
fn body_defaults_match_the_observed_constructor() {
    let b = Body::new(
        Vec2 { x: 1, y: 2 },
        Vec2 { x: 3, y: 4 },
        Vec2 { x: 5, y: 6 },
        Shape::Polygon(Polygon::new(vec![])),
        1_000,
    );
    assert_eq!(b.radius(), 20_000);
    assert_eq!(b.rotation, 0);
    assert_eq!(b.angular_velocity, 0);
    assert_eq!(b.angular_acceleration, 0);
    assert_eq!(b.sum_of_torque, 0);
    assert_eq!(b.position(), Vec2 { x: 1, y: 2 });
    assert_eq!(b.velocity(), Vec2 { x: 3, y: 4 });
    assert_eq!(b.mass(), 1_000);
    // A polygon has no implemented moment of inertia.
    assert_eq!(b.moment_of_inertia(), None);
}

#[test]
fn randomized_body_spawns_at_the_exact_coordinate() {
    let cfg = WorldConfig::standard();
    for i in 0..16 {
        let x = 30_000 + 11 * i;
        let y = 40_000 + 23 * i;
        let b = Body::new_random(x, y, &cfg);
        assert_eq!(b.position(), Vec2 { x, y });
        assert!(cfg.spawn_velocity_min <= b.velocity().x && b.velocity().x < cfg.spawn_velocity_max);
        assert!(cfg.spawn_mass_min <= b.mass() && b.mass() < cfg.spawn_mass_max);
        assert_eq!(b.radius(), 5_000);
        assert!(1_000 <= b.sum_of_torque && b.sum_of_torque < 100_000);
        match b.shape() {
            Shape::Circle(c) => {
                assert_eq!(c.x, x);
                assert_eq!(c.y, y);
                assert!((100..=10_000).contains(&c.radius));
                assert_eq!(c.angle, 0);
            }
            Shape::Polygon(p) => {
                assert_eq!(p.vertices.len(), 4);
                let h = p.vertices[1].x - x;
                assert!((0..=5_000).contains(&h));
                assert_eq!(p.vertices[0], Vec2 { x: x - h, y: y + h });
                assert_eq!(p.vertices[2], Vec2 { x: x + h, y: y - h });
            }
        }
    }
}

#[test]
fn random_polygon_is_a_square_around_the_spawn_point() {
    let p = Polygon::new_rand(70_000, 80_000);
    assert_eq!(p.vertices.len(), 4);
    let h = p.vertices[1].x - 70_000;
    assert!((0..=5_000).contains(&h));
    assert_eq!(p.vertices[0], Vec2 { x: 70_000 - h, y: 80_000 + h });
    assert_eq!(p.vertices[1], Vec2 { x: 70_000 + h, y: 80_000 + h });
    assert_eq!(p.vertices[2], Vec2 { x: 70_000 + h, y: 80_000 - h });
    assert_eq!(p.vertices[3], Vec2 { x: 70_000 - h, y: 80_000 - h });
    assert_eq!(p.x, 5_000);
    assert_eq!(p.y, 5_000);
}

#[test]
fn random_circle_is_gray_and_bounded() {
    let c = Circle::new_rand(10_000, 20_000);
    assert_eq!(c.x, 10_000);
    assert_eq!(c.y, 20_000);
    assert!((100..=10_000).contains(&c.radius));
    assert_eq!(c.angle, 0);
    assert_eq!(c.color.red, c.color.green);
    assert_eq!(c.color.green, c.color.blue);
}

#[test]
fn shape_moves_and_rotates_as_commanded() {
    let mut s = Shape::Circle(Circle::new(1, 2, 300, Rgb { red: 1, green: 2, blue: 3 }));
    s.update_x(77);
    s.update_y(88);
    s.rotate(45_000);
    s.rotate(45_000);
    match &s {
        Shape::Circle(c) => {
            assert_eq!(c.x, 77);
            assert_eq!(c.y, 88);
            assert_eq!(c.angle, 90_000);
            assert_eq!(c.radius, 300);
        }
        Shape::Polygon(_) => panic!("the shape was constructed as a circle"),
    }
    // The polygon's rotation is an open extension point: a no-op.
    let mut q = Shape::Polygon(Polygon::new(vec![Vec2 { x: 1, y: 1 }]));
    q.rotate(45_000);
    q.update_x(9);
    match &q {
        Shape::Polygon(p) => {
            assert_eq!(p.x, 9);
            assert_eq!(p.vertices, vec![Vec2 { x: 1, y: 1 }]);
        }
        Shape::Circle(_) => panic!("the shape was constructed as a polygon"),
    }
}

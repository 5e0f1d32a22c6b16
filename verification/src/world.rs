//! The simulation step driver: owns the live particle collection and the
//! configuration, orchestrates one frame (pair attraction, one integration
//! step per particle), turns input commands into forces or spawns, and
//! computes the frame pacing numbers the external loop needs.

use vstd::prelude::*;
use crate::config::{Rect, WorldConfig, WORLD_LIMIT, KINEMATIC_LIMIT, FRAME_DT_LIMIT};
use crate::fixed::{clamp_i64, clamp_spec};
use crate::forces::{generate_drag_force, generate_gravitational_force, drag_force_spec, grav_force_spec, DRAG_SPEED_LIMIT};
use crate::particle::{Particle, update_rel};
use crate::vec2::Vec2;
use crate::config::in_liquid;

verus! {

/// The fixed magnitude of a directional control impulse: 500 units.
pub const CONTROL_FORCE: i64 = 500_000;

/// A directional input command for the controlled entity; releasing the
/// keys contributes nothing.
#[derive(Clone, Copy, PartialEq, Eq, Structural, Debug)]
pub enum ControlInput {
    Left,
    Right,
    Up,
    Down,
    Release,
}

/// The force a control command contributes to the controlled entity.
pub open spec fn control_force_spec(input: ControlInput) -> (int, int) {
    match input {
        ControlInput::Left => (-(CONTROL_FORCE as int), 0),
        ControlInput::Right => (CONTROL_FORCE as int, 0),
        ControlInput::Up => (0, -(CONTROL_FORCE as int)),
        ControlInput::Down => (0, CONTROL_FORCE as int),
        ControlInput::Release => (0, 0),
    }
}

/// The force vector of a directional control impulse.
pub fn control_force(input: ControlInput) -> (f: Vec2)
    ensures
        (f.x as int, f.y as int) == control_force_spec(input),
{
    match input {
        ControlInput::Left => Vec2 { x: -CONTROL_FORCE, y: 0 },
        ControlInput::Right => Vec2 { x: CONTROL_FORCE, y: 0 },
        ControlInput::Up => Vec2 { x: 0, y: -CONTROL_FORCE },
        ControlInput::Down => Vec2 { x: 0, y: CONTROL_FORCE },
        ControlInput::Release => Vec2 { x: 0, y: 0 },
    }
}

/// A particle with an extra force folded into its accumulator and nothing
/// else touched.
pub open spec fn with_extra_force(p: Particle, fx: int, fy: int) -> Particle {
    Particle {
        sum_of_forces: Vec2 {
            x: (p.sum_of_forces.x + fx) as i64,
            y: (p.sum_of_forces.y + fy) as i64,
        },
        ..p
    }
}

pub struct World {
    pub config: WorldConfig,
    pub liquid: Rect,
    pub particles: Vec<Particle>,
}

impl World {
    /// Every particle keeps its construction invariants, under a
    /// well-formed configuration.
    pub open spec fn wf(self) -> bool {
        &&& self.config.wf()
        &&& forall|i: int|
            0 <= i < self.particles@.len() ==> (#[trigger] self.particles@[i]).wf()
    }

    /// Ready for one driver frame: a positive clamped time step, every
    /// particle inside the world with bounded velocity and a bounded
    /// pre-accumulated force (leaving headroom for the pair attraction),
    /// and the attracting pair non-coincident.
    pub open spec fn frame_ready(self, dt: int) -> bool {
        &&& 0 < dt <= FRAME_DT_LIMIT
        &&& forall|i: int|
            0 <= i < self.particles@.len() ==> {
                let p = #[trigger] self.particles@[i];
                &&& p.position.bounded(WORLD_LIMIT as int)
                &&& p.velocity.bounded(KINEMATIC_LIMIT as int)
                &&& p.sum_of_forces.bounded(1_000_000_000_000)
            }
        &&& self.particles@.len() >= 2 ==> self.particles@[0].position
            != self.particles@[1].position
    }

    /// An empty world under the given configuration, with the liquid
    /// region covering the lower half.
    pub fn new(config: WorldConfig) -> (w: World)
        requires
            config.wf(),
        ensures
            w.wf(),
            w.config == config,
            w.particles@.len() == 0,
            w.liquid.x == 0,
            w.liquid.y == config.height / 2,
            w.liquid.width == config.width,
            w.liquid.height == config.height - config.height / 2,
    {
        let liquid = config.lower_half_liquid();
        World { config, liquid, particles: Vec::new() }
    }

    /// The reference scene: the standard configuration and the two
    /// resting bodies of the attraction scenario, mass 10 at (200, 300)
    /// and mass 1 at (300, 200).
    pub fn standard_scene() -> (w: World)
        ensures
            w.wf(),
            w.particles@.len() == 2,
            w.particles@[0].position == (Vec2 { x: 200_000, y: 300_000 }),
            w.particles@[0].velocity.is_zero(),
            w.particles@[0].sum_of_forces.is_zero(),
            w.particles@[0].mass == 10_000,
            w.particles@[1].position == (Vec2 { x: 300_000, y: 200_000 }),
            w.particles@[1].velocity.is_zero(),
            w.particles@[1].sum_of_forces.is_zero(),
            w.particles@[1].mass == 1_000,
            w.frame_ready(FRAME_DT_LIMIT as int),
    {
        let config = WorldConfig::standard();
        let mut w = World::new(config);
        let first = Particle::new(
            Vec2 { x: 200_000, y: 300_000 },
            Vec2 { x: 0, y: 0 },
            Vec2 { x: 0, y: 0 },
            10_000,
        );
        let second = Particle::new(
            Vec2 { x: 300_000, y: 200_000 },
            Vec2 { x: 0, y: 0 },
            Vec2 { x: 0, y: 0 },
            1_000,
        );
        w.particles.push(first);
        w.particles.push(second);
        w
    }

    /// Append a particle to the live collection.
    pub fn add_particle(&mut self, p: Particle)
        requires
            p.wf(),
        ensures
            final(self).particles@ == old(self).particles@.push(p),
            final(self).config == old(self).config,
            final(self).liquid == old(self).liquid,
            old(self).wf() ==> final(self).wf(),
    {
        self.particles.push(p);
    }

    /// A spawn command: append a randomized particle whose position is
    /// exactly the given coordinate.
    pub fn spawn_at(&mut self, x: i64, y: i64)
        requires
            old(self).wf(),
        ensures
            final(self).wf(),
            final(self).particles@.len() == old(self).particles@.len() + 1,
            forall|i: int|
                0 <= i < old(self).particles@.len() ==> final(self).particles@[i] == old(
                    self,
                ).particles@[i],
            final(self).particles@.last().position == (Vec2 { x, y }),
            final(self).particles@.last().sum_of_forces.is_zero(),
            old(self).config.spawn_velocity_min <= final(self).particles@.last().velocity.x < old(
                self,
            ).config.spawn_velocity_max,
            old(self).config.spawn_velocity_min <= final(self).particles@.last().velocity.y < old(
                self,
            ).config.spawn_velocity_max,
            old(self).config.spawn_mass_min <= final(self).particles@.last().mass < old(
                self,
            ).config.spawn_mass_max,
            final(self).config == old(self).config,
            final(self).liquid == old(self).liquid,
    {
        let p = Particle::new_random(x, y, &self.config);
        self.particles.push(p);
    }

    /// A directional impulse on the controlled entity, the first particle.
    pub fn apply_control(&mut self, input: ControlInput)
        requires
            old(self).wf(),
            old(self).particles@.len() >= 1,
            old(self).particles@[0].sum_of_forces.bounded(1_000_000_000_000),
        ensures
            final(self).wf(),
            final(self).particles@.len() == old(self).particles@.len(),
            ({
                let f = control_force_spec(input);
                final(self).particles@[0] == with_extra_force(old(self).particles@[0], f.0, f.1)
            }),
            forall|i: int|
                1 <= i < old(self).particles@.len() ==> final(self).particles@[i] == old(
                    self,
                ).particles@[i],
            final(self).config == old(self).config,
            final(self).liquid == old(self).liquid,
    {
        let f = control_force(input);
        let mut p0 = self.particles[0];
        p0.add_force(f);
        self.particles[0] = p0;
    }

    /// The optional liquid modifier: every particle whose vertical
    /// coordinate has reached the liquid region receives the quadratic
    /// drag force for its velocity.
    pub fn apply_liquid_drag(&mut self)
        requires
            old(self).wf(),
            forall|i: int|
                0 <= i < old(self).particles@.len() ==> {
                    let p = #[trigger] old(self).particles@[i];
                    &&& p.velocity.bounded(DRAG_SPEED_LIMIT as int)
                    &&& p.sum_of_forces.bounded(1_000_000_000_000)
                },
        ensures
            final(self).wf(),
            final(self).particles@.len() == old(self).particles@.len(),
            forall|i: int|
                0 <= i < old(self).particles@.len() ==> {
                    let pre = #[trigger] old(self).particles@[i];
                    let post = final(self).particles@[i];
                    if in_liquid(old(self).liquid, pre.position.y as int) {
                        let d = drag_force_spec(pre.velocity, old(self).config.drag_coefficient as int);
                        post == with_extra_force(pre, d.0, d.1)
                    } else {
                        post == pre
                    }
                },
            final(self).config == old(self).config,
            final(self).liquid == old(self).liquid,
    {
        let ghost pre = self.particles@;
        let mut i: usize = 0;
        while i < self.particles.len()
            invariant
                self.config == old(self).config,
                self.liquid == old(self).liquid,
                self.config.wf(),
                i <= pre.len(),
                self.particles@.len() == pre.len(),
                forall|j: int| i <= j < pre.len() ==> self.particles@[j] == pre[j],
                forall|j: int|
                    0 <= j < pre.len() ==> {
                        let p = #[trigger] pre[j];
                        &&& p.wf()
                        &&& p.velocity.bounded(DRAG_SPEED_LIMIT as int)
                        &&& p.sum_of_forces.bounded(1_000_000_000_000)
                    },
                forall|j: int|
                    0 <= j < i ==> {
                        let pp = pre[j];
                        let post = #[trigger] self.particles@[j];
                        &&& post.wf()
                        &&& if in_liquid(self.liquid, pp.position.y as int) {
                            let d = drag_force_spec(pp.velocity, self.config.drag_coefficient as int);
                            post == with_extra_force(pp, d.0, d.1)
                        } else {
                            post == pp
                        }
                    },
            decreases pre.len() - i,
        {
            proof {
                assert(self.particles@[i as int] == pre[i as int]);
                assert(pre[i as int].wf());
            }
            let mut p = self.particles[i];
            if p.position.y >= self.liquid.y {
                let d = generate_drag_force(p.velocity, self.config.drag_coefficient);
                p.add_force(d);
                proof {
                    let pp = pre[i as int];
                    let ds = drag_force_spec(pp.velocity, self.config.drag_coefficient as int);
                    assert(d.x as int == ds.0 && d.y as int == ds.1);
                    assert(p.sum_of_forces == (Vec2 {
                        x: (pp.sum_of_forces.x + ds.0) as i64,
                        y: (pp.sum_of_forces.y + ds.1) as i64,
                    }));
                    assert(p == with_extra_force(pp, ds.0, ds.1));
                }
                self.particles[i] = p;
            }
            i = i + 1;
        }
    }

    /// The driver-side test of `step`'s per-frame precondition, for the
    /// loop that cannot evaluate the specification itself.
    pub fn ready_for_step(&self, delta_time: i64) -> (r: bool)
        ensures
            r == self.frame_ready(delta_time as int),
    {
        if !(0 < delta_time && delta_time <= FRAME_DT_LIMIT) {
            return false;
        }
        let n = self.particles.len();
        let mut i: usize = 0;
        while i < n
            invariant
                n == self.particles@.len(),
                i <= n,
                forall|j: int|
                    0 <= j < i ==> {
                        let p = #[trigger] self.particles@[j];
                        &&& p.position.bounded(WORLD_LIMIT as int)
                        &&& p.velocity.bounded(KINEMATIC_LIMIT as int)
                        &&& p.sum_of_forces.bounded(1_000_000_000_000)
                    },
            decreases n - i,
        {
            let p = self.particles[i];
            if p.position.x > WORLD_LIMIT || p.position.x < -WORLD_LIMIT || p.position.y
                > WORLD_LIMIT || p.position.y < -WORLD_LIMIT {
                return false;
            }
            if p.velocity.x > KINEMATIC_LIMIT || p.velocity.x < -KINEMATIC_LIMIT || p.velocity.y
                > KINEMATIC_LIMIT || p.velocity.y < -KINEMATIC_LIMIT {
                return false;
            }
            if p.sum_of_forces.x > 1_000_000_000_000 || p.sum_of_forces.x < -1_000_000_000_000
                || p.sum_of_forces.y > 1_000_000_000_000 || p.sum_of_forces.y
                < -1_000_000_000_000 {
                return false;
            }
            i = i + 1;
        }
        if n >= 2 && self.particles[0].position == self.particles[1].position {
            return false;
        }
        true
    }

    /// One frame of the simulation: the first two particles exchange the
    /// pairwise attraction (Newton's third law), then every particle takes
    /// exactly one integration step.
    pub fn step(&mut self, delta_time: i64)
        requires
            old(self).wf(),
            old(self).frame_ready(delta_time as int),
        ensures
            final(self).wf(),
            final(self).config == old(self).config,
            final(self).liquid == old(self).liquid,
            final(self).particles@.len() == old(self).particles@.len(),
            forall|i: int|
                0 <= i < final(self).particles@.len() ==> {
                    let p = #[trigger] final(self).particles@[i];
                    &&& p.sum_of_forces.is_zero()
                    &&& p.position.bounded(WORLD_LIMIT as int)
                },
            old(self).particles@.len() >= 2 ==> ({
                let g = grav_force_spec(
                    old(self).particles@[0].position,
                    old(self).particles@[1].position,
                    old(self).particles@[0].mass as int,
                    old(self).particles@[1].mass as int,
                    old(self).config.gravitational_constant as int,
                );
                &&& update_rel(
                    with_extra_force(old(self).particles@[0], g.0, g.1),
                    final(self).particles@[0],
                    old(self).config,
                    delta_time as int,
                )
                &&& update_rel(
                    with_extra_force(old(self).particles@[1], -g.0, -g.1),
                    final(self).particles@[1],
                    old(self).config,
                    delta_time as int,
                )
                &&& forall|i: int|
                    2 <= i < old(self).particles@.len() ==> update_rel(
                        #[trigger] old(self).particles@[i],
                        final(self).particles@[i],
                        old(self).config,
                        delta_time as int,
                    )
            }),
            old(self).particles@.len() < 2 ==> forall|i: int|
                0 <= i < old(self).particles@.len() ==> update_rel(
                    #[trigger] old(self).particles@[i],
                    final(self).particles@[i],
                    old(self).config,
                    delta_time as int,
                ),
    {
        if self.particles.len() >= 2 {
            let forces = generate_gravitational_force(
                &self.particles[0],
                &self.particles[1],
                self.config.gravitational_constant,
            );
            let mut p0 = self.particles[0];
            p0.add_force(forces.0);
            self.particles[0] = p0;
            let mut p1 = self.particles[1];
            p1.add_force(forces.1);
            self.particles[1] = p1;
        }
        let ghost mid = self.particles@;
        proof {
            assert forall|j: int| 0 <= j < mid.len() implies (#[trigger] mid[j]).wf()
                && mid[j].step_fits(delta_time as int) by {
                assert(old(self).particles@[j].wf());
            }
        }
        let mut i: usize = 0;
        while i < self.particles.len()
            invariant
                self.config == old(self).config,
                self.liquid == old(self).liquid,
                self.config.wf(),
                0 < delta_time <= FRAME_DT_LIMIT,
                i <= mid.len(),
                self.particles@.len() == mid.len(),
                forall|j: int| i <= j < mid.len() ==> self.particles@[j] == mid[j],
                forall|j: int|
                    0 <= j < mid.len() ==> (#[trigger] mid[j]).wf() && mid[j].step_fits(
                        delta_time as int,
                    ),
                forall|j: int|
                    0 <= j < i ==> {
                        let post = #[trigger] self.particles@[j];
                        &&& update_rel(mid[j], post, self.config, delta_time as int)
                        &&& post.wf()
                        &&& post.sum_of_forces.is_zero()
                        &&& post.position.bounded(WORLD_LIMIT as int)
                    },
            decreases mid.len() - i,
        {
            proof {
                assert(self.particles@[i as int] == mid[i as int]);
                assert(mid[i as int].wf() && mid[i as int].step_fits(delta_time as int));
            }
            let mut p = self.particles[i];
            p.update(&self.config, delta_time);
            self.particles[i] = p;
            i = i + 1;
        }
    }
}

/// Milliseconds each frame may take at the target rate.
pub fn frame_budget_ms(frames_per_second: u32) -> (ms: u32)
    requires
        frames_per_second >= 1,
    ensures
        ms == 1000u32 / frames_per_second,
{
    1000 / frames_per_second
}

/// How long the pacing loop should sleep before the next frame: the
/// unexpired part of the frame budget, or nothing when the frame ran over.
pub fn time_to_wait_ms(now_ms: u32, previous_ms: u32, budget_ms: u32) -> (wait: u32)
    requires
        previous_ms <= now_ms,
    ensures
        wait == if now_ms - previous_ms < budget_ms {
            budget_ms - (now_ms - previous_ms)
        } else {
            0
        },
{
    let elapsed = now_ms - previous_ms;
    if elapsed < budget_ms {
        budget_ms - elapsed
    } else {
        0
    }
}

/// The time step for the next frame: the elapsed wall-clock milliseconds
/// read as a raw scalar (a millisecond is exactly a thousandth of a
/// second), clamped to the 0.016 s cap that keeps integration stable when
/// a frame runs long.
pub fn clamped_delta(now_ms: u32, previous_ms: u32) -> (dt: i64)
    requires
        previous_ms <= now_ms,
    ensures
        dt == clamp_spec((now_ms - previous_ms) as int, 0, FRAME_DT_LIMIT as int),
        0 <= dt <= FRAME_DT_LIMIT,
{
    let elapsed: i64 = (now_ms - previous_ms) as i64;
    clamp_i64(elapsed, 0, FRAME_DT_LIMIT)
}

} // verus!

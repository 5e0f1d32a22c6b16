//! The closed set of body shapes: a circle with a rotation marker, and a
//! polygon whose rotational behavior is an open extension point.

use vstd::prelude::*;
use crate::config::WORLD_LIMIT;
use crate::fixed::{fx_mul, fx_mul_spec, lemma_mul_abs_bound, lemma_fx_mul_sign};
use crate::vec2::Vec2;

verus! {

/// Largest circle radius the inertia computation accepts.
pub const CIRCLE_RADIUS_LIMIT: i64 = 1_000_000;

/// A flat color, carried through the core for the presentation layer.
#[derive(Clone, Copy, PartialEq, Eq, Structural, Debug)]
pub struct Rgb {
    pub red: u8,
    pub green: u8,
    pub blue: u8,
}

#[derive(Clone, Copy, PartialEq, Eq, Structural, Debug)]
pub struct Circle {
    pub x: i64,
    pub y: i64,
    pub radius: i64,
    pub angle: i64,
    pub color: Rgb,
}

impl Circle {
    pub fn new(x: i64, y: i64, radius: i64, color: Rgb) -> (c: Circle)
        ensures
            c == (Circle { x, y, radius, angle: 0, color }),
    {
        Circle { x, y, radius, angle: 0, color }
    }

    /// A circle at `(x, y)` with a radius drawn from `[0.1, 10]` units and
    /// a random gray shade.
    pub fn new_rand(x: i64, y: i64) -> (c: Circle)
        ensures
            c.x == x,
            c.y == y,
            100 <= c.radius <= 10_000,
            c.angle == 0,
            c.color.red == c.color.green == c.color.blue,
    {
        let mut rng = crate::rng::new_rng();
        let radius = crate::rng::sample_range(&mut rng, 100, 10_001);
        let shade_wide = crate::rng::sample_range(&mut rng, 0, 256);
        let shade = shade_wide as u8;
        Circle::new(x, y, radius, Rgb { red: shade, green: shade, blue: shade })
    }
}

#[derive(Clone, PartialEq, Eq, Debug)]
pub struct Polygon {
    pub x: i64,
    pub y: i64,
    pub vertices: Vec<Vec2>,
}

impl Polygon {
    pub fn new(vertices: Vec<Vec2>) -> (p: Polygon)
        ensures
            p.x == 5_000,
            p.y == 5_000,
            p.vertices == vertices,
    {
        Polygon { x: 5_000, y: 5_000, vertices }
    }

    /// An axis-aligned square of random half-size up to 5 units around
    /// `(x, y)`, listed counterclockwise from the upper-left corner.
    pub fn new_rand(x: i64, y: i64) -> (p: Polygon)
        requires
            -WORLD_LIMIT <= x <= WORLD_LIMIT,
            -WORLD_LIMIT <= y <= WORLD_LIMIT,
        ensures
            p.x == 5_000,
            p.y == 5_000,
            p.vertices@.len() == 4,
            ({
                let h = p.vertices@[1].x - x;
                &&& 0 <= h <= 5_000
                &&& p.vertices@[0] == (Vec2 { x: (x - h) as i64, y: (y + h) as i64 })
                &&& p.vertices@[1] == (Vec2 { x: (x + h) as i64, y: (y + h) as i64 })
                &&& p.vertices@[2] == (Vec2 { x: (x + h) as i64, y: (y - h) as i64 })
                &&& p.vertices@[3] == (Vec2 { x: (x - h) as i64, y: (y - h) as i64 })
            }),
    {
        let mut rng = crate::rng::new_rng();
        let half = crate::rng::sample_range(&mut rng, 0, 5_001);
        let mut vertices: Vec<Vec2> = Vec::new();
        vertices.push(Vec2 { x: x - half, y: y + half });
        vertices.push(Vec2 { x: x + half, y: y + half });
        vertices.push(Vec2 { x: x + half, y: y - half });
        vertices.push(Vec2 { x: x - half, y: y - half });
        proof {
            assert(vertices@ == seq![
                Vec2 { x: (x - half) as i64, y: (y + half) as i64 },
                Vec2 { x: (x + half) as i64, y: (y + half) as i64 },
                Vec2 { x: (x + half) as i64, y: (y - half) as i64 },
                Vec2 { x: (x - half) as i64, y: (y - half) as i64 },
            ]);
        }
        Polygon { x: 5_000, y: 5_000, vertices }
    }
}

/// The closed set of shapes a body may carry.
#[derive(Clone, PartialEq, Eq, Debug)]
pub enum Shape {
    Circle(Circle),
    Polygon(Polygon),
}

/// A shape after a rotation update: a circle advances its angle marker;
/// the polygon's rotation is an unimplemented extension point and leaves
/// it unchanged.
pub open spec fn spec_rotate(s: Shape, angle: int) -> Shape {
    match s {
        Shape::Circle(c) => Shape::Circle(Circle { angle: (c.angle + angle) as i64, ..c }),
        Shape::Polygon(p) => Shape::Polygon(p),
    }
}

/// A shape moved to a new horizontal coordinate.
pub open spec fn spec_update_x(s: Shape, x: i64) -> Shape {
    match s {
        Shape::Circle(c) => Shape::Circle(Circle { x, ..c }),
        Shape::Polygon(p) => Shape::Polygon(Polygon { x, ..p }),
    }
}

/// A shape moved to a new vertical coordinate.
pub open spec fn spec_update_y(s: Shape, y: i64) -> Shape {
    match s {
        Shape::Circle(c) => Shape::Circle(Circle { y, ..c }),
        Shape::Polygon(p) => Shape::Polygon(Polygon { y, ..p }),
    }
}

/// The moment of inertia a shape contributes, before the mass factor:
/// half the squared radius for a circle; none for a polygon, whose
/// inertia is an unimplemented extension point.
pub open spec fn spec_moment_of_inertia(s: Shape) -> Option<int> {
    match s {
        Shape::Circle(c) => Some(fx_mul_spec(fx_mul_spec(500, c.radius as int), c.radius as int)),
        Shape::Polygon(_) => None,
    }
}

impl Shape {
    /// Advance the shape's rotation marker by `angle`.
    pub fn rotate(&mut self, angle: i64)
        requires
            (*old(self)) matches Shape::Circle(c) ==> i64::MIN <= c.angle + angle <= i64::MAX,
        ensures
            *final(self) == spec_rotate(*old(self), angle as int),
    {
        match self {
            Shape::Circle(c) => {
                c.angle = c.angle + angle;
            },
            Shape::Polygon(_) => {
            },
        }
    }

    /// Move the shape to a new horizontal coordinate.
    pub fn update_x(&mut self, x: i64)
        ensures
            *final(self) == spec_update_x(*old(self), x),
    {
        match self {
            Shape::Circle(c) => {
                c.x = x;
            },
            Shape::Polygon(p) => {
                p.x = x;
            },
        }
    }

    /// Move the shape to a new vertical coordinate.
    pub fn update_y(&mut self, y: i64)
        ensures
            *final(self) == spec_update_y(*old(self), y),
    {
        match self {
            Shape::Circle(c) => {
                c.y = y;
            },
            Shape::Polygon(p) => {
                p.y = y;
            },
        }
    }

    /// The shape's moment-of-inertia contribution, when it has one.
    pub fn moment_of_inertia(&self) -> (m: Option<i64>)
        requires
            (*self) matches Shape::Circle(c) ==> 0 <= c.radius <= CIRCLE_RADIUS_LIMIT,
        ensures
            match m {
                Some(v) => spec_moment_of_inertia(*self) == Some(v as int) && 0 <= v
                    <= 500_000_000,
                None => spec_moment_of_inertia(*self) is None,
            },
    {
        match self {
            Shape::Circle(c) => {
                proof {
                    lemma_mul_abs_bound(500, c.radius as int, 500, CIRCLE_RADIUS_LIMIT as int);
                }
                let half_r: i64 = fx_mul(500, c.radius);
                proof {
                    lemma_fx_mul_sign(500, c.radius as int);
                    lemma_mul_abs_bound(
                        half_r as int,
                        c.radius as int,
                        500_000,
                        CIRCLE_RADIUS_LIMIT as int,
                    );
                    lemma_fx_mul_sign(half_r as int, c.radius as int);
                }
                Some(fx_mul(half_r, c.radius))
            },
            Shape::Polygon(_) => None,
        }
    }
}

} // verus!

//! A 2D vector of fixed-point scalars, used for positions, velocities,
//! accelerations and forces alike.

use vstd::prelude::*;
use vstd::math::abs;
use crate::fixed::{sqrt_floor, is_sqrt_floor, isqrt_u64, lemma_sqrt_floor_at_least};

verus! {

#[derive(Clone, Copy, PartialEq, Eq, Structural, Debug)]
pub struct Vec2 {
    pub x: i64,
    pub y: i64,
}

impl Vec2 {
    /// Both components are zero.
    pub open spec fn is_zero(self) -> bool {
        self.x == 0 && self.y == 0
    }

    /// Both components have magnitude at most `m`.
    pub open spec fn bounded(self, m: int) -> bool {
        abs(self.x as int) <= m && abs(self.y as int) <= m
    }

    pub fn new(x: i64, y: i64) -> (v: Vec2)
        ensures
            v == (Vec2 { x, y }),
    {
        Vec2 { x, y }
    }

    pub fn zero() -> (v: Vec2)
        ensures
            v.is_zero(),
    {
        Vec2 { x: 0, y: 0 }
    }

    /// Component-wise sum.
    pub fn plus(self, other: Vec2) -> (v: Vec2)
        requires
            i64::MIN <= self.x + other.x <= i64::MAX,
            i64::MIN <= self.y + other.y <= i64::MAX,
        ensures
            v.x == self.x + other.x,
            v.y == self.y + other.y,
    {
        Vec2 { x: self.x + other.x, y: self.y + other.y }
    }

    /// The squared magnitude before re-scaling: it carries the scale twice,
    /// so its rounded-down square root carries the scale once.
    pub open spec fn norm_sq_raw(self) -> int {
        self.x * self.x + self.y * self.y
    }

    /// The magnitude of the vector, rounded down to the scalar scale.
    pub open spec fn norm_spec(self) -> int {
        sqrt_floor(self.norm_sq_raw())
    }

    /// The magnitude of the vector; zero exactly on the zero vector, and
    /// at least as large as either component's magnitude.
    pub fn norm(self) -> (n: i64)
        requires
            self.bounded(2_000_000_000),
        ensures
            n == self.norm_spec(),
            is_sqrt_floor(self.norm_sq_raw(), n as int),
            0 <= n <= 3_000_000_000,
            abs(self.x as int) <= n,
            abs(self.y as int) <= n,
            (n == 0) <==> self.is_zero(),
    {
        proof {
            assert(self.x * self.x <= 4_000_000_000_000_000_000 && self.x * self.x >= 0)
                by (nonlinear_arith)
                requires
                    abs(self.x as int) <= 2_000_000_000,
            ;
            assert(self.y * self.y <= 4_000_000_000_000_000_000 && self.y * self.y >= 0)
                by (nonlinear_arith)
                requires
                    abs(self.y as int) <= 2_000_000_000,
            ;
        }
        let sx: i64 = self.x * self.x;
        let sy: i64 = self.y * self.y;
        let s: i64 = sx + sy;
        let n_u: u64 = isqrt_u64(s as u64);
        proof {
            assert(n_u as int <= 3_000_000_000) by (nonlinear_arith)
                requires
                    (n_u as int) * (n_u as int) <= 8_000_000_000_000_000_000,
                    n_u as int >= 0,
            ;
            assert(abs(self.x as int) * abs(self.x as int) == self.x * self.x
                && abs(self.y as int) * abs(self.y as int) == self.y * self.y)
                by (nonlinear_arith)
            ;
            lemma_sqrt_floor_at_least(s as int, abs(self.x as int) as int);
            lemma_sqrt_floor_at_least(s as int, abs(self.y as int) as int);
            if self.x != 0 {
                assert(self.x * self.x >= 1) by (nonlinear_arith)
                    requires
                        self.x != 0,
                ;
            }
            if self.y != 0 {
                assert(self.y * self.y >= 1) by (nonlinear_arith)
                    requires
                        self.y != 0,
                ;
            }
            if self.x == 0 && self.y == 0 {
                assert(self.x * self.x == 0 && self.y * self.y == 0) by (nonlinear_arith)
                    requires
                        self.x == 0 && self.y == 0,
                ;
                assert(n_u as int == 0) by (nonlinear_arith)
                    requires
                        (n_u as int) * (n_u as int) <= 0,
                        n_u as int >= 0,
                ;
            }
        }
        n_u as i64
    }

    /// Component-wise negation.
    pub fn negated(self) -> (v: Vec2)
        requires
            self.x > i64::MIN,
            self.y > i64::MIN,
        ensures
            v.x == -self.x,
            v.y == -self.y,
    {
        Vec2 { x: -self.x, y: -self.y }
    }
}

} // verus!

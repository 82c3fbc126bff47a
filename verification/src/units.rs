//! Plane geometry on integer coordinates.
//!
//! Positions, extents and offsets are in milli-units (one world unit is
//! 1000). Range checks compare squared distances, which is exact on integers:
//! for a non-negative radius, `dist < r` holds exactly when `dist² < r²`.

use vstd::prelude::*;

verus! {

/// Bound on any coordinate the library handles, in milli-units. Far beyond
/// the playable world, yet small enough that squared distances of in-bounds
/// points fit in `i64`.
pub const COORD_LIMIT: i64 = 1_000_000_000;

/// A point or offset in the plane, in milli-units.
#[derive(Clone, Copy, Debug, PartialEq, Eq, Structural)]
pub struct Vec2i {
    pub x: i64,
    pub y: i64,
}

impl Vec2i {
    pub open spec fn in_bounds(self) -> bool {
        &&& -COORD_LIMIT <= self.x <= COORD_LIMIT
        &&& -COORD_LIMIT <= self.y <= COORD_LIMIT
    }

    pub fn new(x: i64, y: i64) -> (r: Vec2i)
        ensures
            r == (Vec2i { x, y }),
    {
        Vec2i { x, y }
    }

    /// The squared Euclidean distance between two points, as a mathematical
    /// integer.
    pub open spec fn spec_dist_sq(a: Vec2i, b: Vec2i) -> int {
        (a.x - b.x) * (a.x - b.x) + (a.y - b.y) * (a.y - b.y)
    }

    pub fn dist_sq(a: Vec2i, b: Vec2i) -> (r: i64)
        requires
            a.in_bounds(),
            b.in_bounds(),
        ensures
            r == Self::spec_dist_sq(a, b),
    {
        let dx = a.x - b.x;
        let dy = a.y - b.y;
        proof {
            lemma_square_bound(dx as int);
            lemma_square_bound(dy as int);
        }
        dx * dx + dy * dy
    }

    /// Whether the distance between `a` and `b` is strictly below `r`.
    pub open spec fn spec_dist_lt(a: Vec2i, b: Vec2i, r: int) -> bool {
        Self::spec_dist_sq(a, b) < r * r
    }

    /// Whether the distance between `a` and `b` is strictly above `r`.
    pub open spec fn spec_dist_gt(a: Vec2i, b: Vec2i, r: int) -> bool {
        Self::spec_dist_sq(a, b) > r * r
    }

    pub fn dist_lt(a: Vec2i, b: Vec2i, r: i64) -> (res: bool)
        requires
            a.in_bounds(),
            b.in_bounds(),
            0 <= r,
        ensures
            res == Self::spec_dist_lt(a, b, r as int),
    {
        if r >= FAR_RADIUS {
            proof {
                lemma_far_radius_covers(a, b, r as int);
            }
            true
        } else {
            proof {
                lemma_radius_square_bound(r as int);
            }
            Self::dist_sq(a, b) < r * r
        }
    }

    pub fn dist_gt(a: Vec2i, b: Vec2i, r: i64) -> (res: bool)
        requires
            a.in_bounds(),
            b.in_bounds(),
            0 <= r,
        ensures
            res == Self::spec_dist_gt(a, b, r as int),
    {
        if r >= FAR_RADIUS {
            proof {
                lemma_far_radius_covers(a, b, r as int);
            }
            false
        } else {
            proof {
                lemma_radius_square_bound(r as int);
            }
            Self::dist_sq(a, b) > r * r
        }
    }
}

/// An RGBA colour with channels in thousandths: 0 is none, 1000 is full.
#[derive(Clone, Copy, Debug, PartialEq, Eq, Structural)]
pub struct ColorMilli {
    pub r: i64,
    pub g: i64,
    pub b: i64,
    pub a: i64,
}

/// A radius no two in-bounds points can be apart: coordinates span at most
/// twice `COORD_LIMIT` per axis, so squared distances stay below this
/// radius's square.
const FAR_RADIUS: i64 = 2_900_000_000;

/// The square of a radius below `FAR_RADIUS` still fits in `i64`.
proof fn lemma_radius_square_bound(r: int)
    requires
        0 <= r < FAR_RADIUS,
    ensures
        0 <= r * r < 8_410_000_000_000_000_000,
{
    assert(0 <= r * r < 8_410_000_000_000_000_000) by (nonlinear_arith)
        requires
            0 <= r < 2_900_000_000,
    ;
}

/// Any radius of at least `FAR_RADIUS` covers every pair of in-bounds points.
proof fn lemma_far_radius_covers(a: Vec2i, b: Vec2i, r: int)
    requires
        a.in_bounds(),
        b.in_bounds(),
        r >= FAR_RADIUS,
    ensures
        Vec2i::spec_dist_sq(a, b) < r * r,
{
    lemma_square_bound(a.x - b.x);
    lemma_square_bound(a.y - b.y);
    assert(2_900_000_000 <= r ==> 8_410_000_000_000_000_000 <= r * r) by (nonlinear_arith);
}

/// The square of a coordinate difference bounded by twice `COORD_LIMIT` stays
/// within a quarter of the `i64` range, so sums of two such squares fit.
proof fn lemma_square_bound(d: int)
    requires
        -2 * COORD_LIMIT <= d <= 2 * COORD_LIMIT,
    ensures
        0 <= d * d <= 4_000_000_000_000_000_000,
{
    assert(0 <= d * d <= 4_000_000_000_000_000_000) by (nonlinear_arith)
        requires
            -2_000_000_000 <= d <= 2_000_000_000,
    ;
}

} // verus!

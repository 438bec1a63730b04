//! Fixed-point positions, sizes and rectangles.
//!
//! Every coordinate is an integer count of thousandths of a world unit (or,
//! for screen positions, thousandths of a pixel).  Coordinates the game works
//! with stay within [`COORD_LIMIT`] of the origin, which keeps every product
//! and sum formed here inside `i64`.

use vstd::prelude::*;

verus! {

/// Largest coordinate magnitude the game ever works with: a million units.
pub const COORD_LIMIT: i64 = 1_000_000_000;

/// A point on the terrain plane: the world `x` and `z` axes.
#[derive(Debug, Clone, Copy, PartialEq, Eq, Structural)]
pub struct PlanePos {
    pub x: i64,
    pub z: i64,
}

/// A point in the full three-dimensional world.
#[derive(Debug, Clone, Copy, PartialEq, Eq, Structural)]
pub struct WorldPos {
    pub x: i64,
    pub y: i64,
    pub z: i64,
}

/// A point on the screen, in thousandths of a pixel from the top-left corner.
#[derive(Debug, Clone, Copy, PartialEq, Eq, Structural)]
pub struct ScreenPos {
    pub x: i64,
    pub y: i64,
}

/// A width and height on the terrain plane.
#[derive(Debug, Clone, Copy, PartialEq, Eq, Structural)]
pub struct Size2 {
    pub x: i64,
    pub y: i64,
}

/// An axis-aligned screen rectangle, given as its top-left corner and extent.
#[derive(Debug, Clone, Copy, PartialEq, Eq, Structural)]
pub struct ScreenRect {
    pub left: i64,
    pub top: i64,
    pub width: i64,
    pub height: i64,
}

impl PlanePos {
    /// Both coordinates stay within the world bounds.
    pub open spec fn in_bounds(self) -> bool {
        -COORD_LIMIT <= self.x <= COORD_LIMIT && -COORD_LIMIT <= self.z <= COORD_LIMIT
    }

    /// Lift a point of the terrain plane to the world: the plane's second
    /// coordinate is the world `z` axis, and the height is zero.
    pub fn to_world(self) -> (r: WorldPos)
        ensures
            r == (WorldPos { x: self.x, y: 0, z: self.z }),
    {
        WorldPos { x: self.x, y: 0, z: self.z }
    }
}

impl ScreenPos {
    /// Screen positions handed in by the window are inside it, so they are
    /// never negative and never beyond the world bound.
    pub open spec fn in_bounds(self) -> bool {
        0 <= self.x <= COORD_LIMIT && 0 <= self.y <= COORD_LIMIT
    }
}

/// The squared distance between two points of the terrain plane.
pub open spec fn spec_distance_squared(a: PlanePos, b: PlanePos) -> int {
    (a.x - b.x) * (a.x - b.x) + (a.z - b.z) * (a.z - b.z)
}

/// The square of a number within twice the coordinate bound fits well under
/// half of `i64::MAX`.
proof fn lemma_square_bound(d: int) by (nonlinear_arith)
    requires
        -2 * COORD_LIMIT <= d <= 2 * COORD_LIMIT,
    ensures
        0 <= d * d <= 4_000_000_000_000_000_000,
{
}

/// The squared distance between two in-bounds points of the terrain plane.
pub fn distance_squared(a: PlanePos, b: PlanePos) -> (r: i64)
    requires
        a.in_bounds(),
        b.in_bounds(),
    ensures
        r == spec_distance_squared(a, b),
{
    proof {
        lemma_square_bound(a.x - b.x);
        lemma_square_bound(a.z - b.z);
    }
    let dx = a.x - b.x;
    let dz = a.z - b.z;
    dx * dx + dz * dz
}

/// Division as the machine divides: the quotient is rounded towards zero.
pub open spec fn div_trunc(a: int, b: int) -> int {
    if a >= 0 {
        a / b
    } else {
        -((-a) / b)
    }
}

/// A value pushed into an inclusive band.
pub open spec fn spec_clamp(v: int, lo: int, hi: int) -> int {
    if v < lo {
        lo
    } else if v > hi {
        hi
    } else {
        v
    }
}

/// Push a value into an inclusive band.
pub fn clamp_i64(v: i64, lo: i64, hi: i64) -> (r: i64)
    requires
        lo <= hi,
    ensures
        r == spec_clamp(v as int, lo as int, hi as int),
{
    if v < lo {
        lo
    } else if v > hi {
        hi
    } else {
        v
    }
}

/// A product of bounded factors is bounded by the product of the bounds.
pub proof fn lemma_mul_bounds(a: int, b: int, bound_a: int, bound_b: int) by (nonlinear_arith)
    requires
        -bound_a <= a <= bound_a,
        -bound_b <= b <= bound_b,
        0 <= bound_a,
        0 <= bound_b,
    ensures
        -(bound_a * bound_b) <= a * b <= bound_a * bound_b,
{
}

/// The axis-aligned bounding rectangle of two screen points: its corner is
/// the componentwise minimum and its extent the componentwise difference.
pub open spec fn spec_rect_between(a: ScreenPos, b: ScreenPos) -> ScreenRect {
    ScreenRect {
        left: if a.x <= b.x { a.x } else { b.x },
        top: if a.y <= b.y { a.y } else { b.y },
        width: (if a.x <= b.x { b.x - a.x } else { a.x - b.x }) as i64,
        height: (if a.y <= b.y { b.y - a.y } else { a.y - b.y }) as i64,
    }
}

/// The axis-aligned bounding rectangle of two screen points.
pub fn rect_between(a: ScreenPos, b: ScreenPos) -> (r: ScreenRect)
    requires
        a.in_bounds(),
        b.in_bounds(),
    ensures
        r == spec_rect_between(a, b),
        r.left + r.width == if a.x <= b.x { b.x } else { a.x },
        r.top + r.height == if a.y <= b.y { b.y } else { a.y },
        r.width >= 0 && r.height >= 0,
{
    let min_x = if a.x <= b.x { a.x } else { b.x };
    let max_x = if a.x <= b.x { b.x } else { a.x };
    let min_y = if a.y <= b.y { a.y } else { b.y };
    let max_y = if a.y <= b.y { b.y } else { a.y };
    ScreenRect { left: min_x, top: min_y, width: max_x - min_x, height: max_y - min_y }
}

} // verus!

//! Points in world pixels.
use vstd::prelude::*;

verus! {

/// Pixels per meter of field.
pub const SIZE_SCALING_FACTOR: i64 = 100;

/// Length of an arrowhead wing, in pixels (half the scaling factor).
pub const ARROWHEAD_HALF_WIDTH: i64 = 50;

/// Largest magnitude of a world coordinate: world points fit in `i32`.
pub const WORLD_LIMIT: i64 = 2147483647;

/// A point (or a displacement) in world pixels.
#[derive(Clone, Copy, Debug, PartialEq, Eq, Structural)]
pub struct Point {
    pub x: i64,
    pub y: i64,
}

/// Both coordinates have magnitude at most `lim`.
pub open spec fn within(p: Point, lim: int) -> bool {
    -lim <= p.x <= lim && -lim <= p.y <= lim
}

/// A point that may stand in the world.
pub open spec fn in_world(p: Point) -> bool {
    within(p, WORLD_LIMIT as int)
}

impl Point {
    pub open spec fn new_spec(x: int, y: int) -> Point {
        Point { x: x as i64, y: y as i64 }
    }

    pub fn new(x: i64, y: i64) -> (r: Point)
        ensures
            r.x == x,
            r.y == y,
    {
        Point { x, y }
    }

    pub fn zero() -> (r: Point)
        ensures
            r.x == 0,
            r.y == 0,
    {
        Point { x: 0, y: 0 }
    }

    /// `self - o`, coordinate by coordinate.
    pub fn minus(&self, o: &Point) -> (r: Point)
        requires
            i64::MIN <= self.x - o.x <= i64::MAX,
            i64::MIN <= self.y - o.y <= i64::MAX,
        ensures
            r.x == self.x - o.x,
            r.y == self.y - o.y,
    {
        Point { x: self.x - o.x, y: self.y - o.y }
    }
}

/// A position given in whole meters, in world pixels.
pub fn from_meters(x: i32, y: i32) -> (r: Point)
    ensures
        r.x == x * SIZE_SCALING_FACTOR,
        r.y == y * SIZE_SCALING_FACTOR,
{
    Point { x: x as i64 * SIZE_SCALING_FACTOR, y: y as i64 * SIZE_SCALING_FACTOR }
}

/// A length given in whole meters, in world pixels.
pub fn radius_from_meters(radius: i32) -> (r: i64)
    ensures
        r == radius * SIZE_SCALING_FACTOR,
{
    radius as i64 * SIZE_SCALING_FACTOR
}

} // verus!

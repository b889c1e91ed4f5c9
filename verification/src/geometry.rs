//! Positions in fixed-point world coordinates and the box overlap test.

use vstd::prelude::*;

verus! {

/// Number of length units in one world unit.
pub const UNIT: i64 = 1_000_000;

/// Speed, in length units per millisecond, of one world unit per second.
pub const UNIT_PER_SECOND: i64 = 1_000;

/// A point of the mathematical model: three unbounded coordinates.
pub struct Point {
    pub x: int,
    pub y: int,
    pub z: int,
}

impl Point {
    /// Each coordinate fits the machine type that stores it.
    pub open spec fn representable(self) -> bool {
        &&& i64::MIN <= self.x <= i64::MAX
        &&& i64::MIN <= self.y <= i64::MAX
        &&& i64::MIN <= self.z <= i64::MAX
    }
}

/// A position as the simulation stores it. Blocks fall toward increasing `y`.
#[derive(Clone, Copy, Debug, PartialEq, Eq, Structural)]
pub struct Position {
    pub x: i64,
    pub y: i64,
    pub z: i64,
}

impl View for Position {
    type V = Point;

    open spec fn view(&self) -> Point {
        Point { x: self.x as int, y: self.y as int, z: self.z as int }
    }
}

/// Distance between two coordinates on one axis.
pub open spec fn axis_distance(a: int, b: int) -> int {
    if a >= b {
        a - b
    } else {
        b - a
    }
}

/// A point lies inside the axis-aligned box with centre `centre` and the given
/// half extent when, on each of the three axes, its distance from the centre
/// is strictly less than the half extent.
pub open spec fn overlaps(point: Point, centre: Point, half_extent: int) -> bool {
    &&& axis_distance(point.x, centre.x) < half_extent
    &&& axis_distance(point.y, centre.y) < half_extent
    &&& axis_distance(point.z, centre.z) < half_extent
}

/// Whether two coordinates are closer than `half_extent` on one axis.
fn axis_within(a: i64, b: i64, half_extent: i64) -> (within: bool)
    ensures
        within == (axis_distance(a as int, b as int) < half_extent),
{
    let wide_a: i128 = a as i128;
    let wide_b: i128 = b as i128;
    let distance: i128 = if wide_a >= wide_b {
        wide_a - wide_b
    } else {
        wide_b - wide_a
    };
    distance < half_extent as i128
}

/// The product of a stored speed and a stored duration stays far inside the
/// range of 128-bit integers.
pub proof fn lemma_distance_bounded(speed: int, elapsed: int)
    by (nonlinear_arith)
    requires
        i64::MIN <= speed <= i64::MAX,
        0 <= elapsed <= u32::MAX,
    ensures
        -0x8000_0000_0000_0000_0000_0000 <= speed * elapsed <= 0x8000_0000_0000_0000_0000_0000,
{
}

/// The distance covered at `speed` during `elapsed` milliseconds.
pub fn travelled(speed: i64, elapsed: u32) -> (distance: i128)
    ensures
        distance == speed * elapsed,
        -0x8000_0000_0000_0000_0000_0000 <= distance <= 0x8000_0000_0000_0000_0000_0000,
{
    proof {
        lemma_distance_bounded(speed as int, elapsed as int);
    }
    speed as i128 * elapsed as i128
}

impl Position {
    /// The position `(x, y, z)` given in whole world units.
    pub fn from_units(x: i32, y: i32, z: i32) -> (position: Position)
        ensures
            position@ == (Point { x: x * UNIT, y: y * UNIT, z: z * UNIT }),
    {
        Position { x: x as i64 * UNIT, y: y as i64 * UNIT, z: z as i64 * UNIT }
    }

    /// Box overlap test between this point and a box around `centre`.
    pub fn overlaps(&self, centre: &Position, half_extent: i64) -> (hit: bool)
        ensures
            hit == overlaps(self@, centre@, half_extent as int),
    {
        axis_within(self.x, centre.x, half_extent)
            && axis_within(self.y, centre.y, half_extent)
            && axis_within(self.z, centre.z, half_extent)
    }
}

} // verus!

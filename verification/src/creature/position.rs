//! Positions on the 2D plane, in fixed-point coordinates.

use vstd::prelude::*;

use crate::util::isqrt;

verus! {

/// The largest coordinate magnitude the geometry works with. It is far
/// beyond anything a creature reaches, and small enough that a squared
/// distance between two bounded positions always fits in 64 bits.
pub const COORD_LIMIT: i64 = 1_000_000_000;

/// A position in the 2D plane represented by an x and a y.
///
/// Coordinates are fixed point: 1000 units are one world unit.
#[derive(Debug, Clone, Copy, PartialEq, Eq, Structural)]
pub struct Position {
    pub x: i64,
    pub y: i64,
}

/// The squared Euclidean distance between two positions.
pub open spec fn spec_dist_sq(a: Position, b: Position) -> int {
    (a.x - b.x) * (a.x - b.x) + (a.y - b.y) * (a.y - b.y)
}

impl Position {
    /// Creates a new position at (x, y).
    pub fn new(x: i64, y: i64) -> (p: Position)
        ensures
            p.x == x,
            p.y == y,
    {
        Position { x, y }
    }

    /// True when both coordinates are at most `limit` in magnitude.
    pub open spec fn bounded(self, limit: int) -> bool {
        &&& -limit <= self.x <= limit
        &&& -limit <= self.y <= limit
    }

    /// Computes the distance from this position to the `to` position: the
    /// integer square root of the squared Euclidean distance, so exact for
    /// distances that are whole and one below the true value otherwise.
    pub fn distance_to(&self, to: &Position) -> (d: i64)
        requires
            self.bounded(COORD_LIMIT as int),
            to.bounded(COORD_LIMIT as int),
        ensures
            0 <= d <= 3_000_000_000i64,
            d * d <= spec_dist_sq(*self, *to) < (d + 1) * (d + 1),
    {
        let dx: i64 = self.x - to.x;
        let dy: i64 = self.y - to.y;
        assert(0 <= dx * dx <= 4_000_000_000_000_000_000) by (nonlinear_arith)
            requires
                -2_000_000_000 <= dx <= 2_000_000_000,
        ;
        assert(0 <= dy * dy <= 4_000_000_000_000_000_000) by (nonlinear_arith)
            requires
                -2_000_000_000 <= dy <= 2_000_000_000,
        ;
        let sq: u64 = (dx * dx + dy * dy) as u64;
        let r: u64 = isqrt(sq);
        assert(r <= 3_000_000_000u64) by (nonlinear_arith)
            requires r * r <= 8_000_000_000_000_000_000u64,
        ;
        r as i64
    }
}

} // verus!

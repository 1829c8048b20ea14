//! Basic 2D geometry: the `Point` value type used throughout the crate, the
//! distance and line-algorithm selectors, and integer squared-distance
//! arithmetic.

use vstd::prelude::*;

verus! {

/// An integer 2D coordinate. Equality and hashing go by the coordinate pair.
#[derive(Copy, Clone, PartialEq, Eq, Structural, Hash, Debug)]
pub struct Point {
    pub x: i32,
    pub y: i32,
}

impl View for Point {
    type V = (int, int);

    open spec fn view(&self) -> (int, int) {
        (self.x as int, self.y as int)
    }
}

impl Point {
    /// Makes a point from its two coordinates.
    pub fn new(x: i32, y: i32) -> (r: Point)
        ensures
            r.x == x,
            r.y == y,
    {
        Point { x, y }
    }
}

/// Selects a 2D distance algorithm.
#[derive(Copy, Clone, PartialEq, Eq, Structural, Debug)]
pub enum DistanceAlg {
    Pythagoras,
    PythagorasSquared,
    Manhattan,
    Chebyshev,
}

/// Selects a line-rasterization algorithm.
#[derive(Copy, Clone, PartialEq, Eq, Structural, Debug)]
pub enum LineAlg {
    Bresenham,
    Vector,
}

/// Squared Euclidean distance between two coordinate pairs.
pub open spec fn dist_sq(a: (int, int), b: (int, int)) -> int {
    (b.0 - a.0) * (b.0 - a.0) + (b.1 - a.1) * (b.1 - a.1)
}

/// Squared Euclidean distance between two points; exact for every pair of
/// `i32` coordinates.
pub fn distance2d_pythagoras_squared(start: Point, end: Point) -> (r: u128)
    ensures
        r == dist_sq(start@, end@),
{
    let dx: i64 = end.x as i64 - start.x as i64;
    let dy: i64 = end.y as i64 - start.y as i64;
    let adx: u64 = if dx >= 0 {
        dx as u64
    } else {
        (-dx) as u64
    };
    let ady: u64 = if dy >= 0 {
        dy as u64
    } else {
        (-dy) as u64
    };
    proof {
        assert((adx as int) * (adx as int) == (dx as int) * (dx as int)) by (nonlinear_arith)
            requires
                adx as int == dx as int || adx as int == -(dx as int),
        ;
        assert((ady as int) * (ady as int) == (dy as int) * (dy as int)) by (nonlinear_arith)
            requires
                ady as int == dy as int || ady as int == -(dy as int),
        ;
        assert((adx as int) * (adx as int) <= 0x1_0000_0000 * 0x1_0000_0000) by (nonlinear_arith)
            requires
                0 <= adx as int <= 0x1_0000_0000,
        ;
        assert((ady as int) * (ady as int) <= 0x1_0000_0000 * 0x1_0000_0000) by (nonlinear_arith)
            requires
                0 <= ady as int <= 0x1_0000_0000,
        ;
    }
    (adx as u128) * (adx as u128) + (ady as u128) * (ady as u128)
}

} // verus!

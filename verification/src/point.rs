//! 2D grid coordinates with row-major (`y` first) ordering.

use vstd::prelude::*;

verus! {

/// A position on the character grid. `y` is the row, `x` the column.
/// Comparisons order by `y` first, then by `x` (row-major order).
#[derive(Debug, Clone, Copy, PartialEq, Eq, Structural)]
pub struct Point {
    /// The point's vertical coordinate (row).
    pub y: usize,
    /// The point's horizontal coordinate (column).
    pub x: usize,
}

impl Point {
    pub fn new(x: usize, y: usize) -> (r: Self)
        ensures
            r.x == x,
            r.y == y,
    {
        Self { x, y }
    }
}

impl Default for Point {
    fn default() -> (r: Self)
        ensures
            r.x == 0,
            r.y == 0,
    {
        Self { x: 0, y: 0 }
    }
}

/// Row-major order: `y` dominates, ties are broken by `x`.
pub open spec fn point_lt(a: Point, b: Point) -> bool {
    a.y < b.y || (a.y == b.y && a.x < b.x)
}

/// Shorthand constructor.
#[allow(non_snake_case)]
pub fn P(x: usize, y: usize) -> (r: Point)
    ensures
        r.x == x,
        r.y == y,
{
    Point::new(x, y)
}

} // verus!

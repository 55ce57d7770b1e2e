//! Point generators and grid iteration over arbitrary point ranges.
//!
//! A linewise walk runs row-major through whole rows between two points; a
//! blockwise walk visits the rectangle spanned by two points. Range ends are
//! given as bounds (unbounded, inclusive, or exclusive) and are first
//! normalized to a half-open range of points.

use vstd::prelude::*;
use crate::cell::Cell;
use crate::grid::Grid;
use crate::point::{Point, point_lt};

verus! {

/// A range bound over points.
#[derive(Debug, Clone, Copy, PartialEq, Eq, Structural)]
pub enum PointBound {
    Unbounded,
    Included(Point),
    Excluded(Point),
}

/// A range bound over line numbers.
#[derive(Debug, Clone, Copy, PartialEq, Eq, Structural)]
pub enum IndexBound {
    Unbounded,
    Included(usize),
    Excluded(usize),
}

/// A normalized half-open range of points.
#[derive(Debug, Clone, Copy, PartialEq, Eq, Structural)]
pub struct PointRange {
    pub start: Point,
    pub end: Point,
}

/// Coordinates small enough that walking the range cannot overflow.
pub const COORD_LIMIT: usize = 0x1000_0000;

pub open spec fn bound_small(b: PointBound) -> bool {
    match b {
        PointBound::Unbounded => true,
        PointBound::Included(p) => p.x < COORD_LIMIT && p.y < COORD_LIMIT,
        PointBound::Excluded(p) => p.x < COORD_LIMIT && p.y < COORD_LIMIT,
    }
}

/// A generator must stay able to step without coordinate overflow.
pub trait PointGenerator: Sized {
    spec fn gen_wf(&self) -> bool;

    /// The point the next call yields, if one is left.
    spec fn gen_peek(&self) -> Option<Point>;

    /// The state after yielding a point.
    spec fn gen_stepped(&self) -> Self;

    /// The next point of the walk: exactly `gen_peek`, stepping the state
    /// exactly when a point is yielded.
    fn next(&mut self) -> (r: Option<Point>)
        requires
            old(self).gen_wf(),
        ensures
            final(self).gen_wf(),
            r == old(self).gen_peek(),
            *final(self) == (if old(self).gen_peek() is Some {
                old(self).gen_stepped()
            } else {
                *old(self)
            }),
    ;
}

// ---------------------------------------------------------------------------
// Linewise walk.
// ---------------------------------------------------------------------------

pub open spec fn spec_lin_start(b: PointBound) -> Point {
    match b {
        PointBound::Included(p) => p,
        _ => Point { x: 0, y: 0 },
    }
}

pub open spec fn spec_lin_end(b: PointBound, size: Point) -> Point {
    match b {
        PointBound::Unbounded => Point { x: 0, y: size.y },
        PointBound::Excluded(p) => p,
        PointBound::Included(p) => if p.x + 1 >= size.x {
            Point { x: 0, y: (p.y + 1) as usize }
        } else {
            Point { x: (p.x + 1) as usize, y: p.y }
        },
    }
}

/// The point after `cur` in a row-major walk over rows of width `size_x`.
pub open spec fn spec_lin_step(cur: Point, size_x: int) -> Point {
    if cur.x + 1 >= size_x {
        Point { x: 0, y: (cur.y + 1) as usize }
    } else {
        Point { x: (cur.x + 1) as usize, y: cur.y }
    }
}

/// Walks row-major from `range.start` up to (exclusive) `range.end`,
/// through whole rows of `size.x` columns in between.
#[derive(Debug, Clone, Copy, PartialEq, Eq, Structural)]
pub struct LinewisePointGenerator {
    pub range: PointRange,
    pub size: Point,
    pub cur: Point,
}

impl LinewisePointGenerator {
    /// Normalize bounds to a half-open point range: an absent start is the
    /// origin; an absent end is the first point past the last row; an
    /// inclusive end advances one cell row-major.
    pub fn normalize_range(start: PointBound, end: PointBound, size: Point) -> (r: PointRange)
        requires
            bound_small(start),
            bound_small(end),
            size.y < COORD_LIMIT,
        ensures
            r.start == spec_lin_start(start),
            r.end == spec_lin_end(end, size),
            r.start.x < COORD_LIMIT,
            r.start.y < COORD_LIMIT,
            r.end.y <= COORD_LIMIT,
    {
        let s = match start {
            PointBound::Included(p) => p,
            _ => Point { x: 0, y: 0 },
        };
        let e = match end {
            PointBound::Unbounded => Point { x: 0, y: size.y },
            PointBound::Excluded(p) => p,
            PointBound::Included(p) => {
                if p.x + 1 >= size.x {
                    Point { x: 0, y: p.y + 1 }
                } else {
                    Point { x: p.x + 1, y: p.y }
                }
            },
        };
        PointRange { start: s, end: e }
    }

    pub fn new(start: PointBound, end: PointBound, size: Point) -> (r: Self)
        requires
            bound_small(start),
            bound_small(end),
            size.y < COORD_LIMIT,
        ensures
            r.range.start == spec_lin_start(start),
            r.range.end == spec_lin_end(end, size),
            r.size == size,
            r.cur == r.range.start,
            r.gen_wf(),
    {
        let range = Self::normalize_range(start, end, size);
        let cur = range.start;
        Self { range, size, cur }
    }
}

impl PointGenerator for LinewisePointGenerator {
    open spec fn gen_wf(&self) -> bool {
        self.cur.x < usize::MAX && self.cur.y <= COORD_LIMIT + 1 && self.range.end.y
            <= COORD_LIMIT
    }

    /// `cur` while it lies before the end of the range in row-major order.
    open spec fn gen_peek(&self) -> Option<Point> {
        if point_lt(self.cur, self.range.end) {
            Some(self.cur)
        } else {
            None
        }
    }

    /// One step row-major through rows of `size.x` columns.
    open spec fn gen_stepped(&self) -> Self {
        LinewisePointGenerator {
            cur: spec_lin_step(self.cur, self.size.x as int),
            ..*self
        }
    }

    fn next(&mut self) -> (r: Option<Point>)
    {
        let end = self.range.end;
        let before = self.cur.y < end.y || (self.cur.y == end.y && self.cur.x < end.x);
        if !before {
            return None;
        }
        let current = self.cur;
        if self.cur.x + 1 >= self.size.x {
            self.cur = Point { x: 0, y: current.y + 1 };
        } else {
            self.cur = Point { x: current.x + 1, y: current.y };
        }
        Some(current)
    }
}

// ---------------------------------------------------------------------------
// Blockwise walk.
// ---------------------------------------------------------------------------

pub open spec fn spec_blk_end(b: PointBound, size: Point) -> Point {
    match b {
        PointBound::Unbounded => size,
        PointBound::Excluded(p) => p,
        PointBound::Included(p) => Point { x: (p.x + 1) as usize, y: (p.y + 1) as usize },
    }
}

/// The point after `cur` in a walk over the rectangle of a range.
pub open spec fn spec_blk_step(cur: Point, range: PointRange) -> Point {
    if cur.x + 1 >= range.end.x {
        Point { x: range.start.x, y: (cur.y + 1) as usize }
    } else {
        Point { x: (cur.x + 1) as usize, y: cur.y }
    }
}

/// Walks the rectangle spanned by `range.start` (inclusive) and `range.end`
/// (exclusive), row by row.
#[derive(Debug, Clone, Copy, PartialEq, Eq, Structural)]
pub struct BlockwisePointGenerator {
    pub range: PointRange,
    pub cur: Point,
}

impl BlockwisePointGenerator {
    /// Normalize bounds to a half-open rectangle: an absent start is the
    /// origin; an absent end is the grid size; an inclusive end moves one
    /// past in both coordinates.
    pub fn normalize_range(start: PointBound, end: PointBound, size: Point) -> (r: PointRange)
        requires
            bound_small(start),
            bound_small(end),
            size.x < COORD_LIMIT,
            size.y < COORD_LIMIT,
        ensures
            r.start == spec_lin_start(start),
            r.end == spec_blk_end(end, size),
            r.start.x < COORD_LIMIT,
            r.start.y < COORD_LIMIT,
            r.end.y <= COORD_LIMIT,
    {
        let s = match start {
            PointBound::Included(p) => p,
            _ => Point { x: 0, y: 0 },
        };
        let e = match end {
            PointBound::Unbounded => size,
            PointBound::Excluded(p) => p,
            PointBound::Included(p) => Point { x: p.x + 1, y: p.y + 1 },
        };
        PointRange { start: s, end: e }
    }

    pub fn new(start: PointBound, end: PointBound, size: Point) -> (r: Self)
        requires
            bound_small(start),
            bound_small(end),
            size.x < COORD_LIMIT,
            size.y < COORD_LIMIT,
        ensures
            r.range.start == spec_lin_start(start),
            r.range.end == spec_blk_end(end, size),
            r.cur == r.range.start,
            r.gen_wf(),
    {
        let range = Self::normalize_range(start, end, size);
        let cur = range.start;
        Self { range, cur }
    }
}

impl PointGenerator for BlockwisePointGenerator {
    open spec fn gen_wf(&self) -> bool {
        self.cur.x < usize::MAX && self.cur.y <= COORD_LIMIT + 1 && self.range.end.y
            <= COORD_LIMIT && self.range.start.x < COORD_LIMIT
    }

    /// `cur` while it lies inside the rectangle.
    open spec fn gen_peek(&self) -> Option<Point> {
        if self.cur.x < self.range.end.x && self.cur.y < self.range.end.y {
            Some(self.cur)
        } else {
            None
        }
    }

    /// One step across the row of the block, then down to the next.
    open spec fn gen_stepped(&self) -> Self {
        BlockwisePointGenerator { cur: spec_blk_step(self.cur, self.range), ..*self }
    }

    fn next(&mut self) -> (r: Option<Point>)
    {
        if self.cur.x >= self.range.end.x || self.cur.y >= self.range.end.y {
            return None;
        }
        let current = self.cur;
        if self.cur.x + 1 >= self.range.end.x {
            self.cur = Point { x: self.range.start.x, y: current.y + 1 };
        } else {
            self.cur = Point { x: current.x + 1, y: current.y };
        }
        Some(current)
    }
}

// ---------------------------------------------------------------------------
// Read-only grid iteration.
// ---------------------------------------------------------------------------

/// Pairs each generated point with the cell there, skipping nothing: the
/// walk ends at the first point that leaves the grid.
pub struct GridIterator<'a, I: PointGenerator> {
    pub grid: &'a Grid,
    pub point_generator: I,
}

impl<'a> GridIterator<'a, LinewisePointGenerator> {
    /// Linewise iteration between two point bounds.
    pub fn selection(grid: &'a Grid, start: PointBound, end: PointBound) -> (r: Self)
        requires
            grid.wf(),
            bound_small(start),
            bound_small(end),
            grid.size.y < COORD_LIMIT,
        ensures
            r.grid == grid,
            r.point_generator.range.start == spec_lin_start(start),
            r.point_generator.range.end == spec_lin_end(end, grid.size),
            r.point_generator.size == grid.size,
            r.point_generator.cur == r.point_generator.range.start,
            r.point_generator.gen_wf(),
    {
        let point_generator = LinewisePointGenerator::new(start, end, grid.size);
        Self { grid, point_generator }
    }

    /// Linewise iteration over a range of whole lines.
    pub fn lines(grid: &'a Grid, start: IndexBound, end: IndexBound) -> (r: Self)
        requires
            grid.wf(),
            grid.size.y < COORD_LIMIT,
            match start {
                IndexBound::Included(n) => n < COORD_LIMIT,
                IndexBound::Excluded(n) => n < COORD_LIMIT,
                IndexBound::Unbounded => true,
            },
            match end {
                IndexBound::Included(n) => n + 2 < COORD_LIMIT,
                IndexBound::Excluded(n) => n < COORD_LIMIT,
                IndexBound::Unbounded => true,
            },
        ensures
            r.grid == grid,
            r.point_generator.range.start == (Point {
                x: 0,
                y: match start {
                    IndexBound::Included(n) => n,
                    _ => 0,
                },
            }),
            r.point_generator.range.end == (Point {
                x: 0,
                y: match end {
                    IndexBound::Unbounded => grid.size.y,
                    IndexBound::Excluded(n) => n,
                    IndexBound::Included(n) => (n + 1) as usize,
                },
            }),
            r.point_generator.size == grid.size,
            r.point_generator.cur == r.point_generator.range.start,
            r.point_generator.gen_wf(),
    {
        let s: usize = match start {
            IndexBound::Included(n) => n,
            _ => 0,
        };
        let e: usize = match end {
            IndexBound::Unbounded => grid.size.y,
            IndexBound::Excluded(n) => n,
            IndexBound::Included(n) => n + 1,
        };
        let point_generator = LinewisePointGenerator::new(
            PointBound::Included(Point { x: 0, y: s }),
            PointBound::Excluded(Point { x: 0, y: e }),
            grid.size,
        );
        Self { grid, point_generator }
    }
}

impl<'a> GridIterator<'a, BlockwisePointGenerator> {
    /// Blockwise iteration over the rectangle between two point bounds.
    pub fn block(grid: &'a Grid, start: PointBound, end: PointBound) -> (r: Self)
        requires
            grid.wf(),
            bound_small(start),
            bound_small(end),
            grid.size.x < COORD_LIMIT,
            grid.size.y < COORD_LIMIT,
        ensures
            r.grid == grid,
            r.point_generator.range.start == spec_lin_start(start),
            r.point_generator.range.end == spec_blk_end(end, grid.size),
            r.point_generator.cur == r.point_generator.range.start,
            r.point_generator.gen_wf(),
    {
        let point_generator = BlockwisePointGenerator::new(start, end, grid.size);
        Self { grid, point_generator }
    }
}

impl<'a, I: PointGenerator> GridIterator<'a, I> {
    /// The next point of the walk together with the cell there; `None` once
    /// the walk ends or at the first point that leaves the grid. The
    /// generator steps exactly when it yielded a point, even one off the
    /// grid.
    pub fn next(&mut self) -> (r: Option<(Point, Cell)>)
        requires
            old(self).grid.wf(),
            old(self).point_generator.gen_wf(),
        ensures
            final(self).grid == old(self).grid,
            final(self).point_generator.gen_wf(),
            final(self).point_generator == (if old(self).point_generator.gen_peek() is Some {
                old(self).point_generator.gen_stepped()
            } else {
                old(self).point_generator
            }),
            r == match old(self).point_generator.gen_peek() {
                Some(p) => if p.y < old(self).grid.size.y && p.x < old(self).grid.size.x {
                    Some((p, old(self).grid.rows()[p.y as int][p.x as int]))
                } else {
                    None::<(Point, Cell)>
                },
                None => None::<(Point, Cell)>,
            },
    {
        match self.point_generator.next() {
            Some(p) => {
                match self.grid.cell(p) {
                    Some(c) => Some((p, c)),
                    None => None,
                }
            },
            None => None,
        }
    }
}

// ---------------------------------------------------------------------------
// Mutable grid iteration.
// ---------------------------------------------------------------------------

/// The mutation-side counterpart of `GridIterator`: it walks the same
/// points; writes go through `Grid::cell_mut` at each yielded point.
pub struct GridMutIterator<I: PointGenerator> {
    pub point_generator: I,
}

impl GridMutIterator<LinewisePointGenerator> {
    /// Linewise iteration between two point bounds.
    pub fn selection(grid: &Grid, start: PointBound, end: PointBound) -> (r: Self)
        requires
            grid.wf(),
            bound_small(start),
            bound_small(end),
            grid.size.y < COORD_LIMIT,
        ensures
            r.point_generator.range.start == spec_lin_start(start),
            r.point_generator.range.end == spec_lin_end(end, grid.size),
            r.point_generator.size == grid.size,
            r.point_generator.cur == r.point_generator.range.start,
            r.point_generator.gen_wf(),
    {
        let point_generator = LinewisePointGenerator::new(start, end, grid.size);
        Self { point_generator }
    }

    /// Linewise iteration over a range of whole lines.
    pub fn lines(grid: &Grid, start: IndexBound, end: IndexBound) -> (r: Self)
        requires
            grid.wf(),
            grid.size.y < COORD_LIMIT,
            match start {
                IndexBound::Included(n) => n < COORD_LIMIT,
                IndexBound::Excluded(n) => n < COORD_LIMIT,
                IndexBound::Unbounded => true,
            },
            match end {
                IndexBound::Included(n) => n + 2 < COORD_LIMIT,
                IndexBound::Excluded(n) => n < COORD_LIMIT,
                IndexBound::Unbounded => true,
            },
        ensures
            r.point_generator.range.start == (Point {
                x: 0,
                y: match start {
                    IndexBound::Included(n) => n,
                    _ => 0,
                },
            }),
            r.point_generator.range.end == (Point {
                x: 0,
                y: match end {
                    IndexBound::Unbounded => grid.size.y,
                    IndexBound::Excluded(n) => n,
                    IndexBound::Included(n) => (n + 1) as usize,
                },
            }),
            r.point_generator.size == grid.size,
            r.point_generator.cur == r.point_generator.range.start,
            r.point_generator.gen_wf(),
    {
        let s: usize = match start {
            IndexBound::Included(n) => n,
            _ => 0,
        };
        let e: usize = match end {
            IndexBound::Unbounded => grid.size.y,
            IndexBound::Excluded(n) => n,
            IndexBound::Included(n) => n + 1,
        };
        let point_generator = LinewisePointGenerator::new(
            PointBound::Included(Point { x: 0, y: s }),
            PointBound::Excluded(Point { x: 0, y: e }),
            grid.size,
        );
        Self { point_generator }
    }
}

impl GridMutIterator<BlockwisePointGenerator> {
    /// Blockwise iteration over the rectangle between two point bounds.
    pub fn block(grid: &Grid, start: PointBound, end: PointBound) -> (r: Self)
        requires
            grid.wf(),
            bound_small(start),
            bound_small(end),
            grid.size.x < COORD_LIMIT,
            grid.size.y < COORD_LIMIT,
        ensures
            r.point_generator.range.start == spec_lin_start(start),
            r.point_generator.range.end == spec_blk_end(end, grid.size),
            r.point_generator.cur == r.point_generator.range.start,
            r.point_generator.gen_wf(),
    {
        let point_generator = BlockwisePointGenerator::new(start, end, grid.size);
        Self { point_generator }
    }
}

impl<I: PointGenerator> GridMutIterator<I> {
    /// The next point of the walk, exactly the generator's `gen_peek`; the
    /// caller writes to it through `Grid::cell_mut`.
    pub fn next_point(&mut self) -> (r: Option<Point>)
        requires
            old(self).point_generator.gen_wf(),
        ensures
            final(self).point_generator.gen_wf(),
            r == old(self).point_generator.gen_peek(),
            final(self).point_generator == (if old(self).point_generator.gen_peek() is Some {
                old(self).point_generator.gen_stepped()
            } else {
                old(self).point_generator
            }),
    {
        self.point_generator.next()
    }
}

// ---------------------------------------------------------------------------
// Iteration entry points on the grid itself.
// ---------------------------------------------------------------------------

impl Grid {
    /// Linewise read-only iteration over a range of whole lines.
    pub fn lines(&self, start: IndexBound, end: IndexBound) -> (r: GridIterator<
        '_,
        LinewisePointGenerator,
    >)
        requires
            self.wf(),
            self.size.y < COORD_LIMIT,
            match start {
                IndexBound::Included(n) => n < COORD_LIMIT,
                IndexBound::Excluded(n) => n < COORD_LIMIT,
                IndexBound::Unbounded => true,
            },
            match end {
                IndexBound::Included(n) => n + 2 < COORD_LIMIT,
                IndexBound::Excluded(n) => n < COORD_LIMIT,
                IndexBound::Unbounded => true,
            },
        ensures
            r.grid == self,
            r.point_generator.range.start == (Point {
                x: 0,
                y: match start {
                    IndexBound::Included(n) => n,
                    _ => 0,
                },
            }),
            r.point_generator.range.end == (Point {
                x: 0,
                y: match end {
                    IndexBound::Unbounded => self.size.y,
                    IndexBound::Excluded(n) => n,
                    IndexBound::Included(n) => (n + 1) as usize,
                },
            }),
            r.point_generator.size == self.size,
            r.point_generator.cur == r.point_generator.range.start,
            r.point_generator.gen_wf(),
    {
        GridIterator::lines(self, start, end)
    }

    /// The mutation-side counterpart of `lines`.
    pub fn lines_mut(&mut self, start: IndexBound, end: IndexBound) -> (r: GridMutIterator<
        LinewisePointGenerator,
    >)
        requires
            old(self).wf(),
            old(self).size.y < COORD_LIMIT,
            match start {
                IndexBound::Included(n) => n < COORD_LIMIT,
                IndexBound::Excluded(n) => n < COORD_LIMIT,
                IndexBound::Unbounded => true,
            },
            match end {
                IndexBound::Included(n) => n + 2 < COORD_LIMIT,
                IndexBound::Excluded(n) => n < COORD_LIMIT,
                IndexBound::Unbounded => true,
            },
        ensures
            *final(self) == *old(self),
            r.point_generator.range.start == (Point {
                x: 0,
                y: match start {
                    IndexBound::Included(n) => n,
                    _ => 0,
                },
            }),
            r.point_generator.range.end == (Point {
                x: 0,
                y: match end {
                    IndexBound::Unbounded => old(self).size.y,
                    IndexBound::Excluded(n) => n,
                    IndexBound::Included(n) => (n + 1) as usize,
                },
            }),
            r.point_generator.size == old(self).size,
            r.point_generator.cur == r.point_generator.range.start,
            r.point_generator.gen_wf(),
    {
        GridMutIterator::lines(self, start, end)
    }

    /// Linewise read-only iteration between two point bounds.
    pub fn selection(&self, start: PointBound, end: PointBound) -> (r: GridIterator<
        '_,
        LinewisePointGenerator,
    >)
        requires
            self.wf(),
            bound_small(start),
            bound_small(end),
            self.size.y < COORD_LIMIT,
        ensures
            r.grid == self,
            r.point_generator.range.start == spec_lin_start(start),
            r.point_generator.range.end == spec_lin_end(end, self.size),
            r.point_generator.size == self.size,
            r.point_generator.cur == r.point_generator.range.start,
            r.point_generator.gen_wf(),
    {
        GridIterator::selection(self, start, end)
    }

    /// The mutation-side counterpart of `selection`.
    pub fn selection_mut(&mut self, start: PointBound, end: PointBound) -> (r: GridMutIterator<
        LinewisePointGenerator,
    >)
        requires
            old(self).wf(),
            bound_small(start),
            bound_small(end),
            old(self).size.y < COORD_LIMIT,
        ensures
            *final(self) == *old(self),
            r.point_generator.range.start == spec_lin_start(start),
            r.point_generator.range.end == spec_lin_end(end, old(self).size),
            r.point_generator.size == old(self).size,
            r.point_generator.cur == r.point_generator.range.start,
            r.point_generator.gen_wf(),
    {
        GridMutIterator::selection(self, start, end)
    }

    /// Blockwise read-only iteration over a rectangle.
    pub fn block(&self, start: PointBound, end: PointBound) -> (r: GridIterator<
        '_,
        BlockwisePointGenerator,
    >)
        requires
            self.wf(),
            bound_small(start),
            bound_small(end),
            self.size.x < COORD_LIMIT,
            self.size.y < COORD_LIMIT,
        ensures
            r.grid == self,
            r.point_generator.range.start == spec_lin_start(start),
            r.point_generator.range.end == spec_blk_end(end, self.size),
            r.point_generator.cur == r.point_generator.range.start,
            r.point_generator.gen_wf(),
    {
        GridIterator::block(self, start, end)
    }

    /// The mutation-side counterpart of `block`.
    pub fn block_mut(&mut self, start: PointBound, end: PointBound) -> (r: GridMutIterator<
        BlockwisePointGenerator,
    >)
        requires
            old(self).wf(),
            bound_small(start),
            bound_small(end),
            old(self).size.x < COORD_LIMIT,
            old(self).size.y < COORD_LIMIT,
        ensures
            *final(self) == *old(self),
            r.point_generator.range.start == spec_lin_start(start),
            r.point_generator.range.end == spec_blk_end(end, old(self).size),
            r.point_generator.cur == r.point_generator.range.start,
            r.point_generator.gen_wf(),
    {
        GridMutIterator::block(self, start, end)
    }
}

} // verus!

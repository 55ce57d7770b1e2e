use termcore::cell::Cell;
use termcore::grid::Grid;
use termcore::iter::{BlockwisePointGenerator, IndexBound, LinewisePointGenerator, PointBound,
    PointGenerator};
use termcore::point::{P, Point};

fn collect_lin(mut g: LinewisePointGenerator) -> Vec<Point> {
    let mut v = Vec::new();
    while let Some(p) = g.next() {
        v.push(p);
    }
    v
}

fn collect_blk(mut g: BlockwisePointGenerator) -> Vec<Point> {
    let mut v = Vec::new();
    while let Some(p) = g.next() {
        v.push(p);
    }
    v
}

#[test]
fn test_selectionwise_point_generator_range() {
    let g = LinewisePointGenerator::new(
        PointBound::Included(P(3, 2)),
        PointBound::Excluded(P(1, 4)),
        P(5, 5),
    );
    assert_eq!(g.range.start, P(3, 2));
    assert_eq!(g.range.end, P(1, 4));
    assert_eq!(
        collect_lin(g),
        vec![
            P(3, 2),
            P(4, 2),
            P(0, 3),
            P(1, 3),
            P(2, 3),
            P(3, 3),
            P(4, 3),
            P(0, 4),
        ],
    );
}

#[test]
fn test_selectionwise_point_generator_range_inclusive() {
    let g = LinewisePointGenerator::new(
        PointBound::Included(P(3, 2)),
        PointBound::Included(P(1, 4)),
        P(5, 5),
    );
    assert_eq!(g.range.start, P(3, 2));
    assert_eq!(g.range.end, P(2, 4));
    assert_eq!(
        collect_lin(g),
        vec![
            P(3, 2),
            P(4, 2),
            P(0, 3),
            P(1, 3),
            P(2, 3),
            P(3, 3),
            P(4, 3),
            P(0, 4),
            P(1, 4),
        ],
    );
}

#[test]
fn test_selectionwise_point_generator_range_to() {
    let g = LinewisePointGenerator::new(
        PointBound::Unbounded,
        PointBound::Excluded(P(4, 2)),
        P(5, 5),
    );
    assert_eq!(g.range.start, P(0, 0));
    assert_eq!(g.range.end, P(4, 2));
    assert_eq!(
        collect_lin(g),
        vec![
            P(0, 0),
            P(1, 0),
            P(2, 0),
            P(3, 0),
            P(4, 0),
            P(0, 1),
            P(1, 1),
            P(2, 1),
            P(3, 1),
            P(4, 1),
            P(0, 2),
            P(1, 2),
            P(2, 2),
            P(3, 2),
        ],
    );
}

#[test]
fn test_selectionwise_point_generator_range_to_inclusive() {
    let g = LinewisePointGenerator::new(
        PointBound::Unbounded,
        PointBound::Included(P(4, 2)),
        P(5, 5),
    );
    assert_eq!(g.range.start, P(0, 0));
    assert_eq!(g.range.end, P(0, 3));
    assert_eq!(
        collect_lin(g),
        vec![
            P(0, 0),
            P(1, 0),
            P(2, 0),
            P(3, 0),
            P(4, 0),
            P(0, 1),
            P(1, 1),
            P(2, 1),
            P(3, 1),
            P(4, 1),
            P(0, 2),
            P(1, 2),
            P(2, 2),
            P(3, 2),
            P(4, 2),
        ],
    );
}

#[test]
fn test_selectionwise_point_generator_range_from() {
    let g = LinewisePointGenerator::new(
        PointBound::Included(P(2, 2)),
        PointBound::Unbounded,
        P(5, 5),
    );
    assert_eq!(g.range.start, P(2, 2));
    assert_eq!(g.range.end, P(0, 5));
    assert_eq!(
        collect_lin(g),
        vec![
            P(2, 2),
            P(3, 2),
            P(4, 2),
            P(0, 3),
            P(1, 3),
            P(2, 3),
            P(3, 3),
            P(4, 3),
            P(0, 4),
            P(1, 4),
            P(2, 4),
            P(3, 4),
            P(4, 4),
        ],
    );
}

#[test]
fn test_selectionwise_point_generator_range_full() {
    let g = LinewisePointGenerator::new(PointBound::Unbounded, PointBound::Unbounded, P(5, 5));
    assert_eq!(g.range.start, P(0, 0));
    assert_eq!(g.range.end, P(0, 5));
    assert_eq!(
        collect_lin(g),
        vec![
            P(0, 0),
            P(1, 0),
            P(2, 0),
            P(3, 0),
            P(4, 0),
            P(0, 1),
            P(1, 1),
            P(2, 1),
            P(3, 1),
            P(4, 1),
            P(0, 2),
            P(1, 2),
            P(2, 2),
            P(3, 2),
            P(4, 2),
            P(0, 3),
            P(1, 3),
            P(2, 3),
            P(3, 3),
            P(4, 3),
            P(0, 4),
            P(1, 4),
            P(2, 4),
            P(3, 4),
            P(4, 4),
        ],
    );
}

#[test]
fn test_blockwise_point_generator_range() {
    let g = BlockwisePointGenerator::new(
        PointBound::Included(P(1, 1)),
        PointBound::Excluded(P(4, 3)),
        P(5, 5),
    );
    assert_eq!(g.range.start, P(1, 1));
    assert_eq!(g.range.end, P(4, 3));
    assert_eq!(
        collect_blk(g),
        vec![P(1, 1), P(2, 1), P(3, 1), P(1, 2), P(2, 2), P(3, 2)],
    );
}

#[test]
fn test_blockwise_point_generator_range_inclusive() {
    let g = BlockwisePointGenerator::new(
        PointBound::Included(P(1, 1)),
        PointBound::Included(P(4, 3)),
        P(5, 5),
    );
    assert_eq!(g.range.start, P(1, 1));
    assert_eq!(g.range.end, P(5, 4));
    assert_eq!(
        collect_blk(g),
        vec![
            P(1, 1),
            P(2, 1),
            P(3, 1),
            P(4, 1),
            P(1, 2),
            P(2, 2),
            P(3, 2),
            P(4, 2),
            P(1, 3),
            P(2, 3),
            P(3, 3),
            P(4, 3),
        ],
    );
}

#[test]
fn test_blockwise_point_generator_range_to() {
    let g = BlockwisePointGenerator::new(
        PointBound::Unbounded,
        PointBound::Excluded(P(2, 3)),
        P(5, 5),
    );
    assert_eq!(g.range.start, P(0, 0));
    assert_eq!(g.range.end, P(2, 3));
    assert_eq!(
        collect_blk(g),
        vec![P(0, 0), P(1, 0), P(0, 1), P(1, 1), P(0, 2), P(1, 2)],
    );
}

#[test]
fn test_blockwise_point_generator_range_to_inclusive() {
    let g = BlockwisePointGenerator::new(
        PointBound::Unbounded,
        PointBound::Included(P(2, 3)),
        P(5, 5),
    );
    assert_eq!(g.range.start, P(0, 0));
    assert_eq!(g.range.end, P(3, 4));
    assert_eq!(
        collect_blk(g),
        vec![
            P(0, 0),
            P(1, 0),
            P(2, 0),
            P(0, 1),
            P(1, 1),
            P(2, 1),
            P(0, 2),
            P(1, 2),
            P(2, 2),
            P(0, 3),
            P(1, 3),
            P(2, 3),
        ],
    );
}

#[test]
fn test_blockwise_point_generator_range_from() {
    let g = BlockwisePointGenerator::new(
        PointBound::Included(P(2, 3)),
        PointBound::Unbounded,
        P(5, 5),
    );
    assert_eq!(g.range.start, P(2, 3));
    assert_eq!(g.range.end, P(5, 5));
    assert_eq!(
        collect_blk(g),
        vec![P(2, 3), P(3, 3), P(4, 3), P(2, 4), P(3, 4), P(4, 4)],
    );
}

#[test]
fn test_blockwise_point_generator_range_full() {
    let g = BlockwisePointGenerator::new(PointBound::Unbounded, PointBound::Unbounded, P(5, 5));
    assert_eq!(g.range.start, P(0, 0));
    assert_eq!(g.range.end, P(5, 5));
    assert_eq!(
        collect_blk(g),
        vec![
            P(0, 0),
            P(1, 0),
            P(2, 0),
            P(3, 0),
            P(4, 0),
            P(0, 1),
            P(1, 1),
            P(2, 1),
            P(3, 1),
            P(4, 1),
            P(0, 2),
            P(1, 2),
            P(2, 2),
            P(3, 2),
            P(4, 2),
            P(0, 3),
            P(1, 3),
            P(2, 3),
            P(3, 3),
            P(4, 3),
            P(0, 4),
            P(1, 4),
            P(2, 4),
            P(3, 4),
            P(4, 4),
        ],
    );
}

#[test]
fn grid_iteration_yields_cells() {
    let mut grid = Grid::new(P(3, 2));
    let mut cell = Cell::default();
    cell.ch = Some('x');
    assert!(grid.cell_mut(P(1, 0), cell));
    let mut it = grid.lines(IndexBound::Unbounded, IndexBound::Excluded(1));
    let mut seen = Vec::new();
    while let Some((p, c)) = it.next() {
        seen.push((p, c.ch));
    }
    assert_eq!(
        seen,
        vec![(P(0, 0), None), (P(1, 0), Some('x')), (P(2, 0), None)],
    );
    let mut blk = grid.block(
        PointBound::Included(P(1, 0)),
        PointBound::Included(P(2, 1)),
    );
    let mut count = 0;
    while let Some(_) = blk.next() {
        count += 1;
    }
    assert_eq!(count, 4);
    // The mutation-side walk yields the same points to write through.
    let mut mw = grid.selection_mut(
        PointBound::Included(P(0, 1)),
        PointBound::Excluded(P(2, 1)),
    );
    let mut pts = Vec::new();
    while let Some(p) = mw.next_point() {
        pts.push(p);
    }
    assert_eq!(pts, vec![P(0, 1), P(1, 1)]);
}

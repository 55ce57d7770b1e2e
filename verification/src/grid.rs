//! The cell grid: a dense row-major rectangle of cells plus the per-column
//! tabstop marks, with the region operations the screen handler needs
//! (filling, in-line shifting, and scrolling a row region).

use vstd::prelude::*;
use crate::cell::Cell;
use crate::point::Point;

verus! {

/// One row of the grid.
#[derive(Debug, Clone, PartialEq)]
pub struct Line {
    pub cells: Vec<Cell>,
}

impl Line {
    /// A row of `size` blank default cells.
    pub fn new(size: usize) -> (r: Line)
        ensures
            r.cells@.len() == size,
            forall|i: int| 0 <= i < size ==> r.cells@[i] == Cell::spec_default(),
    {
        let mut cells: Vec<Cell> = Vec::new();
        let mut i: usize = 0;
        while i < size
            invariant
                i <= size,
                cells@.len() == i,
                forall|j: int| 0 <= j < i ==> cells@[j] == Cell::spec_default(),
            decreases size - i,
        {
            cells.push(Cell::default());
            i += 1;
        }
        Line { cells }
    }

    /// The cell at column `x`, if the column exists.
    pub fn get(&self, x: usize) -> (r: Option<Cell>)
        ensures
            r == if x < self.cells@.len() {
                Some(self.cells@[x as int])
            } else {
                None::<Cell>
            },
    {
        if x < self.cells.len() {
            Some(self.cells[x])
        } else {
            None
        }
    }
}

/// A row of `w` copies of `cell`.
pub open spec fn full_row(w: int, cell: Cell) -> Seq<Cell> {
    Seq::new(w as nat, |i: int| cell)
}

/// `row` with columns `x0 <= x < x1` replaced by `cell`.
pub open spec fn filled_row(row: Seq<Cell>, x0: int, x1: int, cell: Cell) -> Seq<Cell> {
    Seq::new(row.len(), |i: int| if x0 <= i < x1 { cell } else { row[i] })
}

/// `row` with `n` copies of `blank` inserted at column `at`; the tail shifts
/// right and falls off the end.
pub open spec fn inserted_row(row: Seq<Cell>, at: int, n: int, blank: Cell) -> Seq<Cell> {
    Seq::new(
        row.len(),
        |i: int| if i < at {
            row[i]
        } else if i < at + n {
            blank
        } else {
            row[i - n]
        },
    )
}

/// `row` with `n` cells removed at column `at`; the tail shifts left and
/// `blank` fills the far end.
pub open spec fn deleted_row(row: Seq<Cell>, at: int, n: int, blank: Cell) -> Seq<Cell> {
    Seq::new(
        row.len(),
        |i: int| if i < at {
            row[i]
        } else if i + n < row.len() {
            row[i + n]
        } else {
            blank
        },
    )
}

/// The rows of a grid after the region `top..=bot` slides up by `n`:
/// rows deeper in the region move up, blank rows enter from below.
pub open spec fn scrolled_up(rows: Seq<Seq<Cell>>, top: int, bot: int, n: int, blank: Seq<
    Cell,
>) -> Seq<Seq<Cell>> {
    Seq::new(
        rows.len(),
        |y: int| if y < top || y > bot {
            rows[y]
        } else if y + n <= bot {
            rows[y + n]
        } else {
            blank
        },
    )
}

/// The rows of a grid after the region `top..=bot` slides down by `n`:
/// rows move down, blank rows enter from above.
pub open spec fn scrolled_down(rows: Seq<Seq<Cell>>, top: int, bot: int, n: int, blank: Seq<
    Cell,
>) -> Seq<Seq<Cell>> {
    Seq::new(
        rows.len(),
        |y: int| if y < top || y > bot {
            rows[y]
        } else if y - n >= top {
            rows[y - n]
        } else {
            blank
        },
    )
}

/// Dense row-major cell grid with a tabstop mark per column.
#[derive(Debug, Clone)]
pub struct Grid {
    pub data: Vec<Line>,
    pub tabstops: Vec<bool>,
    pub size: Point,
}

impl Grid {
    /// Every row present and rectangular; one tabstop mark per column.
    pub open spec fn wf(&self) -> bool {
        &&& self.data@.len() == self.size.y
        &&& forall|y: int|
            0 <= y < self.data@.len() ==> (#[trigger] self.data@[y]).cells@.len() == self.size.x
        &&& self.tabstops@.len() == self.size.x
    }

    /// The grid contents as a sequence of rows.
    pub open spec fn rows(&self) -> Seq<Seq<Cell>> {
        self.data@.map(|i: int, l: Line| l.cells@)
    }

    /// An empty grid of the given size: default cells, no tabstops set.
    pub fn new(size: Point) -> (r: Grid)
        ensures
            r.wf(),
            r.size == size,
            r.rows() =~~= Seq::new(
                size.y as nat,
                |y: int| full_row(size.x as int, Cell::spec_default()),
            ),
            r.tabstops@ =~= Seq::new(size.x as nat, |i: int| false),
    {
        let mut data: Vec<Line> = Vec::new();
        let mut y: usize = 0;
        while y < size.y
            invariant
                y <= size.y,
                data@.len() == y,
                forall|j: int|
                    0 <= j < y ==> (#[trigger] data@[j]).cells@ =~= full_row(
                        size.x as int,
                        Cell::spec_default(),
                    ),
            decreases size.y - y,
        {
            let line = Line::new(size.x);
            proof {
                assert(line.cells@ =~= full_row(size.x as int, Cell::spec_default()));
            }
            data.push(line);
            y += 1;
        }
        let mut tabstops: Vec<bool> = Vec::new();
        let mut x: usize = 0;
        while x < size.x
            invariant
                x <= size.x,
                tabstops@.len() == x,
                forall|j: int| 0 <= j < x ==> tabstops@[j] == false,
            decreases size.x - x,
        {
            tabstops.push(false);
            x += 1;
        }
        let g = Grid { data, tabstops, size };
        proof {
            assert(g.rows() =~~= Seq::new(
                size.y as nat,
                |y: int| full_row(size.x as int, Cell::spec_default()),
            ));
            assert(g.tabstops@ =~= Seq::new(size.x as nat, |i: int| false));
        }
        g
    }

    /// The cell at `point`; out-of-bounds lookups return `None` without fault.
    pub fn cell(&self, point: Point) -> (r: Option<Cell>)
        requires
            self.wf(),
        ensures
            r == if point.y < self.size.y && point.x < self.size.x {
                Some(self.rows()[point.y as int][point.x as int])
            } else {
                None::<Cell>
            },
    {
        if point.y < self.data.len() {
            self.data[point.y].get(point.x)
        } else {
            None
        }
    }

    /// Write `cell` at `point`; reports whether the point was in bounds.
    /// This is the mutation counterpart of `cell`.
    pub fn cell_mut(&mut self, point: Point, cell: Cell) -> (updated: bool)
        requires
            old(self).wf(),
        ensures
            final(self).wf(),
            final(self).size == old(self).size,
            final(self).tabstops@ == old(self).tabstops@,
            updated == (point.y < old(self).size.y && point.x < old(self).size.x),
            updated ==> final(self).rows() =~~= old(self).rows().update(
                point.y as int,
                old(self).rows()[point.y as int].update(point.x as int, cell),
            ),
            !updated ==> final(self).rows() == old(self).rows(),
    {
        if point.y < self.data.len() && point.x < self.size.x {
            self.data[point.y].cells[point.x] = cell;
            proof {
                assert(final(self).rows() =~~= old(self).rows().update(
                    point.y as int,
                    old(self).rows()[point.y as int].update(point.x as int, cell),
                ));
            }
            true
        } else {
            false
        }
    }

    /// Replace columns `x0 <= x < x1` of row `y` with `cell`.
    pub fn row_fill(&mut self, y: usize, x0: usize, x1: usize, cell: Cell)
        requires
            old(self).wf(),
            y < old(self).size.y,
            x1 <= old(self).size.x,
        ensures
            final(self).wf(),
            final(self).size == old(self).size,
            final(self).tabstops@ == old(self).tabstops@,
            final(self).rows() =~~= old(self).rows().update(
                y as int,
                filled_row(old(self).rows()[y as int], x0 as int, x1 as int, cell),
            ),
    {
        let mut x = x0;
        proof {
            assert(self.rows() =~~= old(self).rows().update(
                y as int,
                filled_row(old(self).rows()[y as int], x0 as int, x0 as int, cell),
            ));
        }
        while x < x1
            invariant
                old(self).wf(),
                self.wf(),
                self.size == old(self).size,
                self.tabstops@ == old(self).tabstops@,
                y < self.size.y,
                x0 <= x,
                x <= x1 || x == x0,
                x1 <= self.size.x,
                self.rows() =~~= old(self).rows().update(
                    y as int,
                    filled_row(old(self).rows()[y as int], x0 as int, x as int, cell),
                ),
            decreases x1 - x,
        {
            let ghost prev = self.rows();
            self.data[y].cells[x] = cell;
            proof {
                assert(self.rows() =~~= prev.update(
                    y as int,
                    prev[y as int].update(x as int, cell),
                ));
                assert(prev[y as int].update(x as int, cell) =~= filled_row(
                    old(self).rows()[y as int],
                    x0 as int,
                    x + 1,
                    cell,
                ));
                assert(self.rows() =~~= old(self).rows().update(
                    y as int,
                    filled_row(old(self).rows()[y as int], x0 as int, x + 1, cell),
                ));
            }
            x += 1;
        }
    }

    /// Replace rows `y0 <= y < y1` entirely with `cell`.
    pub fn region_fill(&mut self, y0: usize, y1: usize, cell: Cell)
        requires
            old(self).wf(),
            y1 <= old(self).size.y,
        ensures
            final(self).wf(),
            final(self).size == old(self).size,
            final(self).tabstops@ == old(self).tabstops@,
            final(self).rows() =~~= Seq::new(
                old(self).rows().len(),
                |y: int| if y0 <= y < y1 {
                    full_row(old(self).size.x as int, cell)
                } else {
                    old(self).rows()[y]
                },
            ),
    {
        let mut y = y0;
        proof {
            assert(self.rows() =~~= Seq::new(
                old(self).rows().len(),
                |j: int| if y0 <= j < y0 {
                    full_row(old(self).size.x as int, cell)
                } else {
                    old(self).rows()[j]
                },
            ));
        }
        while y < y1
            invariant
                old(self).wf(),
                self.wf(),
                self.size == old(self).size,
                self.tabstops@ == old(self).tabstops@,
                y0 <= y,
                y <= y1 || y == y0,
                y1 <= self.size.y,
                self.rows() =~~= Seq::new(
                    old(self).rows().len(),
                    |j: int| if y0 <= j < y {
                        full_row(old(self).size.x as int, cell)
                    } else {
                        old(self).rows()[j]
                    },
                ),
            decreases y1 - y,
        {
            let w = self.size.x;
            let ghost mid = self.rows();
            self.row_fill(y, 0, w, cell);
            proof {
                assert(filled_row(mid[y as int], 0, w as int, cell) =~= full_row(w as int, cell));
                assert(self.rows() =~~= Seq::new(
                    old(self).rows().len(),
                    |j: int| if y0 <= j < y + 1 {
                        full_row(old(self).size.x as int, cell)
                    } else {
                        old(self).rows()[j]
                    },
                ));
            }
            y += 1;
        }
    }

    /// Insert `n` copies of `blank` at column `at` of row `y`; the tail of
    /// the row shifts right and falls off the end.
    pub fn line_insert(&mut self, y: usize, at: usize, n: usize, blank: Cell)
        requires
            old(self).wf(),
            y < old(self).size.y,
            at < old(self).size.x,
            1 <= n <= old(self).size.x - at,
        ensures
            final(self).wf(),
            final(self).size == old(self).size,
            final(self).tabstops@ == old(self).tabstops@,
            final(self).rows() =~~= old(self).rows().update(
                y as int,
                inserted_row(old(self).rows()[y as int], at as int, n as int, blank),
            ),
    {
        let w = self.size.x;
        // Shift the tail right, from the far end toward `at`.
        let mut x = w;
        proof {
            assert(self.rows() =~~= old(self).rows().update(
                y as int,
                Seq::new(
                    w as nat,
                    |i: int| if i >= x && i >= at + n {
                        old(self).rows()[y as int][i - n]
                    } else {
                        old(self).rows()[y as int][i]
                    },
                ),
            ));
        }
        while x > at + n
            invariant
                old(self).wf(),
                self.wf(),
                self.size == old(self).size,
                self.tabstops@ == old(self).tabstops@,
                y < self.size.y,
                at < self.size.x,
                w == self.size.x,
                1 <= n <= self.size.x - at,
                at + n <= x <= w,
                self.rows() =~~= old(self).rows().update(
                    y as int,
                    Seq::new(
                        w as nat,
                        |i: int| if i >= x && i >= at + n {
                            old(self).rows()[y as int][i - n]
                        } else {
                            old(self).rows()[y as int][i]
                        },
                    ),
                ),
            decreases x,
        {
            x -= 1;
            let ghost prev = self.rows();
            let v = self.data[y].cells[x - n];
            self.data[y].cells[x] = v;
            proof {
                assert(self.rows() =~~= prev.update(
                    y as int,
                    prev[y as int].update(x as int, v),
                ));
                assert(prev[y as int].update(x as int, v) =~= Seq::new(
                    w as nat,
                    |i: int| if i >= x && i >= at + n {
                        old(self).rows()[y as int][i - n]
                    } else {
                        old(self).rows()[y as int][i]
                    },
                ));
                assert(self.rows() =~~= old(self).rows().update(
                    y as int,
                    Seq::new(
                        w as nat,
                        |i: int| if i >= x && i >= at + n {
                            old(self).rows()[y as int][i - n]
                        } else {
                            old(self).rows()[y as int][i]
                        },
                    ),
                ));
            }
        }
        // Fill the opened gap with blanks.
        let ghost mid = self.rows();
        self.row_fill(y, at, at + n, blank);
        proof {
            assert(self.rows()[y as int] =~= inserted_row(
                old(self).rows()[y as int],
                at as int,
                n as int,
                blank,
            ));
            assert(self.rows() =~~= old(self).rows().update(
                y as int,
                inserted_row(old(self).rows()[y as int], at as int, n as int, blank),
            ));
        }
    }

    /// Delete `n` cells at column `at` of row `y`; the tail of the row
    /// shifts left and `blank` fills the far end.
    pub fn line_delete(&mut self, y: usize, at: usize, n: usize, blank: Cell)
        requires
            old(self).wf(),
            y < old(self).size.y,
            at < old(self).size.x,
            1 <= n <= old(self).size.x - at,
        ensures
            final(self).wf(),
            final(self).size == old(self).size,
            final(self).tabstops@ == old(self).tabstops@,
            final(self).rows() =~~= old(self).rows().update(
                y as int,
                deleted_row(old(self).rows()[y as int], at as int, n as int, blank),
            ),
    {
        let w = self.size.x;
        // Shift the tail left.
        let mut x = at;
        proof {
            assert(self.rows() =~~= old(self).rows().update(
                y as int,
                Seq::new(
                    w as nat,
                    |i: int| if at <= i < x {
                        old(self).rows()[y as int][i + n]
                    } else {
                        old(self).rows()[y as int][i]
                    },
                ),
            ));
        }
        while x + n < w
            invariant
                old(self).wf(),
                self.wf(),
                self.size == old(self).size,
                self.tabstops@ == old(self).tabstops@,
                y < self.size.y,
                at < self.size.x,
                w == self.size.x,
                1 <= n <= self.size.x - at,
                at <= x,
                x + n <= w,
                self.rows() =~~= old(self).rows().update(
                    y as int,
                    Seq::new(
                        w as nat,
                        |i: int| if at <= i < x {
                            old(self).rows()[y as int][i + n]
                        } else {
                            old(self).rows()[y as int][i]
                        },
                    ),
                ),
            decreases w - x,
        {
            let ghost prev = self.rows();
            let v = self.data[y].cells[x + n];
            self.data[y].cells[x] = v;
            proof {
                assert(self.rows() =~~= prev.update(
                    y as int,
                    prev[y as int].update(x as int, v),
                ));
                assert(prev[y as int].update(x as int, v) =~= Seq::new(
                    w as nat,
                    |i: int| if at <= i < x + 1 {
                        old(self).rows()[y as int][i + n]
                    } else {
                        old(self).rows()[y as int][i]
                    },
                ));
                assert(self.rows() =~~= old(self).rows().update(
                    y as int,
                    Seq::new(
                        w as nat,
                        |i: int| if at <= i < x + 1 {
                            old(self).rows()[y as int][i + n]
                        } else {
                            old(self).rows()[y as int][i]
                        },
                    ),
                ));
            }
            x += 1;
        }
        // Fill the freed tail with blanks: x + n == w here.
        self.row_fill(y, x, w, blank);
        proof {
            assert(self.rows()[y as int] =~= deleted_row(
                old(self).rows()[y as int],
                at as int,
                n as int,
                blank,
            ));
            assert(self.rows() =~~= old(self).rows().update(
                y as int,
                deleted_row(old(self).rows()[y as int], at as int, n as int, blank),
            ));
        }
    }

    /// Copy row `src` over row `dst`.
    fn copy_row(&mut self, dst: usize, src: usize)
        requires
            old(self).wf(),
            dst < old(self).size.y,
            src < old(self).size.y,
        ensures
            final(self).wf(),
            final(self).size == old(self).size,
            final(self).tabstops@ == old(self).tabstops@,
            final(self).rows() =~~= old(self).rows().update(
                dst as int,
                old(self).rows()[src as int],
            ),
    {
        if dst == src {
            proof {
                assert(old(self).rows() =~~= old(self).rows().update(
                    dst as int,
                    old(self).rows()[src as int],
                ));
            }
            return;
        }
        let w = self.size.x;
        let mut x: usize = 0;
        while x < w
            invariant
                old(self).wf(),
                self.wf(),
                self.size == old(self).size,
                self.tabstops@ == old(self).tabstops@,
                dst < self.size.y,
                src < self.size.y,
                dst != src,
                w == self.size.x,
                x <= w,
                self.rows() =~~= old(self).rows().update(
                    dst as int,
                    Seq::new(
                        w as nat,
                        |i: int| if i < x {
                            old(self).rows()[src as int][i]
                        } else {
                            old(self).rows()[dst as int][i]
                        },
                    ),
                ),
            decreases w - x,
        {
            let ghost prev = self.rows();
            let v = self.data[src].cells[x];
            self.data[dst].cells[x] = v;
            proof {
                assert(self.rows() =~~= prev.update(
                    dst as int,
                    prev[dst as int].update(x as int, v),
                ));
                assert(prev[src as int] == old(self).rows()[src as int]);
                assert(v == prev[src as int][x as int]);
                assert(prev[dst as int] == Seq::new(
                    w as nat,
                    |i: int| if i < x {
                        old(self).rows()[src as int][i]
                    } else {
                        old(self).rows()[dst as int][i]
                    },
                ));
                assert(prev[dst as int].update(x as int, v) =~= Seq::new(
                    w as nat,
                    |i: int| if i < x + 1 {
                        old(self).rows()[src as int][i]
                    } else {
                        old(self).rows()[dst as int][i]
                    },
                ));
                assert(self.rows() =~~= old(self).rows().update(
                    dst as int,
                    Seq::new(
                        w as nat,
                        |i: int| if i < x + 1 {
                            old(self).rows()[src as int][i]
                        } else {
                            old(self).rows()[dst as int][i]
                        },
                    ),
                ));
            }
            x += 1;
        }
        proof {
            assert(self.rows() =~~= old(self).rows().update(
                dst as int,
                old(self).rows()[src as int],
            ));
        }
    }

    /// Slide the row region `top..=bot` up by `n` rows; `blank`-filled rows
    /// enter at the bottom of the region.
    pub fn scroll_region_up(&mut self, top: usize, bot: usize, n: usize, blank: Cell)
        requires
            old(self).wf(),
            top <= bot,
            bot < old(self).size.y,
            n >= 1,
        ensures
            final(self).wf(),
            final(self).size == old(self).size,
            final(self).tabstops@ == old(self).tabstops@,
            final(self).rows() =~~= scrolled_up(
                old(self).rows(),
                top as int,
                bot as int,
                n as int,
                full_row(old(self).size.x as int, blank),
            ),
    {
        let w = self.size.x;
        let mut y = top;
        proof {
            assert(self.rows() =~~= Seq::new(
                old(self).rows().len(),
                |j: int| if top <= j < y {
                    scrolled_up(
                        old(self).rows(),
                        top as int,
                        bot as int,
                        n as int,
                        full_row(w as int, blank),
                    )[j]
                } else {
                    old(self).rows()[j]
                },
            ));
        }
        while y < bot + 1
            invariant
                old(self).wf(),
                self.wf(),
                self.size == old(self).size,
                self.tabstops@ == old(self).tabstops@,
                top <= bot,
                bot < self.size.y,
                n >= 1,
                w == self.size.x,
                top <= y <= bot + 1,
                self.rows() =~~= Seq::new(
                    old(self).rows().len(),
                    |j: int| if top <= j < y {
                        scrolled_up(
                            old(self).rows(),
                            top as int,
                            bot as int,
                            n as int,
                            full_row(w as int, blank),
                        )[j]
                    } else {
                        old(self).rows()[j]
                    },
                ),
            decreases bot + 1 - y,
        {
            let ghost mid = self.rows();
            if n <= bot - y {
                let src = y + n;
                self.copy_row(y, src);
            } else {
                self.row_fill(y, 0, w, blank);
                proof {
                    assert(filled_row(mid[y as int], 0, w as int, blank) =~= full_row(
                        w as int,
                        blank,
                    ));
                }
            }
            proof {
                assert(self.rows() =~~= Seq::new(
                    old(self).rows().len(),
                    |j: int| if top <= j < y + 1 {
                        scrolled_up(
                            old(self).rows(),
                            top as int,
                            bot as int,
                            n as int,
                            full_row(w as int, blank),
                        )[j]
                    } else {
                        old(self).rows()[j]
                    },
                ));
            }
            y += 1;
        }
        proof {
            assert(self.rows() =~~= scrolled_up(
                old(self).rows(),
                top as int,
                bot as int,
                n as int,
                full_row(old(self).size.x as int, blank),
            ));
        }
    }

    /// Slide the row region `top..=bot` down by `n` rows; `blank`-filled rows
    /// enter at the top of the region.
    pub fn scroll_region_down(&mut self, top: usize, bot: usize, n: usize, blank: Cell)
        requires
            old(self).wf(),
            top <= bot,
            bot < old(self).size.y,
            n >= 1,
        ensures
            final(self).wf(),
            final(self).size == old(self).size,
            final(self).tabstops@ == old(self).tabstops@,
            final(self).rows() =~~= scrolled_down(
                old(self).rows(),
                top as int,
                bot as int,
                n as int,
                full_row(old(self).size.x as int, blank),
            ),
    {
        let w = self.size.x;
        let cnt = bot - top + 1;
        let mut i: usize = 0;
        proof {
            assert(self.rows() =~~= Seq::new(
                old(self).rows().len(),
                |j: int| if bot - i < j <= bot {
                    scrolled_down(
                        old(self).rows(),
                        top as int,
                        bot as int,
                        n as int,
                        full_row(w as int, blank),
                    )[j]
                } else {
                    old(self).rows()[j]
                },
            ));
        }
        while i < cnt
            invariant
                old(self).wf(),
                self.wf(),
                self.size == old(self).size,
                self.tabstops@ == old(self).tabstops@,
                top <= bot,
                bot < self.size.y,
                n >= 1,
                w == self.size.x,
                cnt == bot - top + 1,
                i <= cnt,
                self.rows() =~~= Seq::new(
                    old(self).rows().len(),
                    |j: int| if bot - i < j <= bot {
                        scrolled_down(
                            old(self).rows(),
                            top as int,
                            bot as int,
                            n as int,
                            full_row(w as int, blank),
                        )[j]
                    } else {
                        old(self).rows()[j]
                    },
                ),
            decreases cnt - i,
        {
            let y = bot - i;
            let ghost mid = self.rows();
            if n <= y - top {
                let src = y - n;
                self.copy_row(y, src);
            } else {
                self.row_fill(y, 0, w, blank);
                proof {
                    assert(filled_row(mid[y as int], 0, w as int, blank) =~= full_row(
                        w as int,
                        blank,
                    ));
                }
            }
            proof {
                assert(self.rows() =~~= Seq::new(
                    old(self).rows().len(),
                    |j: int| if bot - i - 1 < j <= bot {
                        scrolled_down(
                            old(self).rows(),
                            top as int,
                            bot as int,
                            n as int,
                            full_row(w as int, blank),
                        )[j]
                    } else {
                        old(self).rows()[j]
                    },
                ));
            }
            i += 1;
        }
        proof {
            assert(self.rows() =~~= scrolled_down(
                old(self).rows(),
                top as int,
                bot as int,
                n as int,
                full_row(old(self).size.x as int, blank),
            ));
        }
    }

    /// Whether column `x` carries a tabstop.
    pub fn tabstop(&self, x: usize) -> (r: bool)
        requires
            self.wf(),
            x < self.size.x,
        ensures
            r == self.tabstops@[x as int],
    {
        self.tabstops[x]
    }

    /// Set or clear the tabstop mark of column `x`; out-of-range columns are
    /// left alone.
    pub fn set_tabstop(&mut self, x: usize, value: bool)
        requires
            old(self).wf(),
        ensures
            final(self).wf(),
            final(self).size == old(self).size,
            final(self).rows() == old(self).rows(),
            final(self).tabstops@ == if x < old(self).size.x {
                old(self).tabstops@.update(x as int, value)
            } else {
                old(self).tabstops@
            },
    {
        if x < self.tabstops.len() {
            self.tabstops[x] = value;
        }
    }

    /// Clear every tabstop mark.
    pub fn clear_tabstops(&mut self)
        requires
            old(self).wf(),
        ensures
            final(self).wf(),
            final(self).size == old(self).size,
            final(self).rows() == old(self).rows(),
            final(self).tabstops@ =~= Seq::new(old(self).tabstops@.len(), |i: int| false),
    {
        let mut x: usize = 0;
        let n = self.tabstops.len();
        while x < n
            invariant
                old(self).wf(),
                self.wf(),
                self.size == old(self).size,
                self.rows() == old(self).rows(),
                n == self.tabstops@.len(),
                x <= n,
                forall|j: int| 0 <= j < x ==> self.tabstops@[j] == false,
                forall|j: int| x <= j < n ==> self.tabstops@[j] == old(self).tabstops@[j],
            decreases n - x,
        {
            self.tabstops[x] = false;
            x += 1;
        }
    }
}

} // verus!

//! The square trail buffer: a `size x size` grid of cells, addressed
//! one-based, painted with trail marks and reset wholesale on growth.

use vstd::prelude::*;

use crate::color::Rgba;
use crate::color::background;
use crate::color::background_color;
use crate::geom::Coord;
use crate::geom::MAX_GRID_SIZE;
use crate::geom::in_bounds;
use crate::geom::valid_size;

verus! {

/// The trail buffer. Cells are stored row-major in a flat vector; the cell
/// `(i, j)` (one-based) lives at index `(i-1)*size + (j-1)`.
pub struct GridState {
    size: i32,
    cells: Vec<Rgba>,
}

impl GridState {
    /// The grid side length.
    pub closed spec fn size(&self) -> int {
        self.size as int
    }

    /// The color of cell `(i, j)`, one-based.
    pub closed spec fn cell(&self, i: int, j: int) -> Rgba {
        self.cells@[(i - 1) * self.size + (j - 1)]
    }

    /// Well-formedness: a valid side length and exactly `size * size` cells.
    pub closed spec fn wf(&self) -> bool {
        valid_size(self.size as int) && self.cells@.len() == self.size * self.size
    }

    /// Every cell of the grid holds the background color.
    pub open spec fn all_background(&self) -> bool {
        forall|i: int, j: int|
            1 <= i <= self.size() && 1 <= j <= self.size() ==> self.cell(i, j) == background()
    }

    /// A fresh grid of the given side, every cell the background color.
    pub fn new(size: i32) -> (g: GridState)
        requires
            valid_size(size as int),
        ensures
            g.wf(),
            g.size() == size,
            g.all_background(),
    {
        proof {
            lemma_size_sq_bound(size as int);
        }
        let n = (size as usize) * (size as usize);
        let mut cells: Vec<Rgba> = Vec::new();
        let mut k: usize = 0;
        let bg = background_color();
        while k < n
            invariant
                k <= n,
                cells@.len() == k,
                bg == background(),
                forall|t: int| 0 <= t < k ==> cells@[t] == background(),
            decreases n - k,
        {
            cells.push(bg);
            k = k + 1;
        }
        let g = GridState { size, cells };
        proof {
            assert(g.cells@.len() == size * size);
            assert forall|i: int, j: int|
                1 <= i <= g.size() && 1 <= j <= g.size() implies g.cell(i, j) == background() by {
                lemma_cell_index_range(size as int, i, j);
            }
        }
        g
    }

    /// Paint the cell at `coord` with the given color; no other cell and not
    /// the side length changes.
    pub fn paint(&mut self, coord: Coord, color: Rgba)
        requires
            old(self).wf(),
            in_bounds(coord, old(self).size()),
        ensures
            final(self).wf(),
            final(self).size() == old(self).size(),
            final(self).cell(coord.x as int, coord.y as int) == color,
            forall|i: int, j: int|
                1 <= i <= old(self).size() && 1 <= j <= old(self).size() && !(i == coord.x && j
                    == coord.y) ==> final(self).cell(i, j) == old(self).cell(i, j),
    {
        proof {
            lemma_cell_index_range(self.size as int, coord.x as int, coord.y as int);
        }
        let idx = ((coord.x - 1) * self.size + (coord.y - 1)) as usize;
        self.cells[idx] = color;
        proof {
            assert forall|i: int, j: int|
                1 <= i <= old(self).size() && 1 <= j <= old(self).size() && !(i == coord.x && j
                    == coord.y) implies final(self).cell(i, j) == old(self).cell(i, j) by {
                lemma_cell_index_range(self.size as int, i, j);
                lemma_cell_index_injective(self.size as int, i, j, coord.x as int, coord.y as int);
            }
        }
    }

    /// A grown copy: side one larger, every cell reset to the background.
    /// Previous trails are discarded on purpose — growth restarts the
    /// visible pattern.
    pub fn grow(&self) -> (g: GridState)
        requires
            self.wf(),
            self.size() < MAX_GRID_SIZE,
        ensures
            g.wf(),
            g.size() == self.size() + 1,
            g.all_background(),
    {
        GridState::new(self.size + 1)
    }

    /// The side length as a value.
    pub fn side(&self) -> (s: i32)
        requires
            self.wf(),
        ensures
            s as int == self.size(),
            valid_size(s as int),
    {
        self.size
    }

    /// The color of the cell at `coord`.
    pub fn cell_at(&self, coord: Coord) -> (c: Rgba)
        requires
            self.wf(),
            in_bounds(coord, self.size()),
        ensures
            c == self.cell(coord.x as int, coord.y as int),
    {
        proof {
            lemma_cell_index_range(self.size as int, coord.x as int, coord.y as int);
        }
        let idx = ((coord.x - 1) * self.size + (coord.y - 1)) as usize;
        self.cells[idx]
    }
}

/// The flat index of an in-bounds cell lies within the buffer.
proof fn lemma_cell_index_range(s: int, i: int, j: int)
    requires
        2 <= s <= MAX_GRID_SIZE,
        1 <= i <= s,
        1 <= j <= s,
    ensures
        0 <= (i - 1) * s,
        0 <= (i - 1) * s + (j - 1) < s * s,
        s * s <= 100000000,
{
    assert(0 <= (i - 1) * s && 0 <= (i - 1) * s + (j - 1) < s * s && s * s <= 100000000)
        by (nonlinear_arith)
        requires
            2 <= s <= 10000,
            1 <= i <= s,
            1 <= j <= s,
    ;
}

/// The cell count of a grid of side `s` stays within machine range.
proof fn lemma_size_sq_bound(s: int)
    requires
        2 <= s <= MAX_GRID_SIZE,
    ensures
        4 <= s * s <= 100000000,
{
    assert(4 <= s * s <= 100000000) by (nonlinear_arith)
        requires
            2 <= s <= 10000,
    ;
}

/// Distinct in-bounds cells have distinct flat indices.
proof fn lemma_cell_index_injective(s: int, i: int, j: int, x: int, y: int)
    requires
        2 <= s,
        1 <= i <= s,
        1 <= j <= s,
        1 <= x <= s,
        1 <= y <= s,
        !(i == x && j == y),
    ensures
        (i - 1) * s + (j - 1) != (x - 1) * s + (y - 1),
{
    assert((i - 1) * s + (j - 1) != (x - 1) * s + (y - 1)) by (nonlinear_arith)
        requires
            2 <= s,
            1 <= i <= s,
            1 <= j <= s,
            1 <= x <= s,
            1 <= y <= s,
            !(i == x && j == y),
    ;
}

} // verus!

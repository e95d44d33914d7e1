//! Grid geometry: one-based cell coordinates on a square grid and the eight
//! single-step move directions.

use vstd::prelude::*;

verus! {

/// Largest grid side length the simulation supports. Keeps every coordinate
/// product comfortably inside machine integer ranges.
pub const MAX_GRID_SIZE: i32 = 10000;

/// A cell address, one-based: both components lie in `[1, size]` for the
/// current grid size.
#[derive(Clone, Copy, PartialEq, Eq, Structural, Debug)]
pub struct Coord {
    pub x: i32,
    pub y: i32,
}

/// A single-step move offset: one of the eight vectors in
/// `{-1,0,1} x {-1,0,1}` minus `(0,0)`.
#[derive(Clone, Copy, PartialEq, Eq, Structural, Debug)]
pub struct Dir {
    pub dx: i32,
    pub dy: i32,
}

/// A well-formed grid size: at least 2, and within the supported maximum.
pub open spec fn valid_size(s: int) -> bool {
    2 <= s <= MAX_GRID_SIZE
}

/// `c` addresses a cell of a grid of side `s`.
pub open spec fn in_bounds(c: Coord, s: int) -> bool {
    1 <= c.x <= s && 1 <= c.y <= s
}

/// `d` is one of the eight legal move offsets.
pub open spec fn is_dir(d: Dir) -> bool {
    -1 <= d.dx <= 1 && -1 <= d.dy <= 1 && !(d.dx == 0 && d.dy == 0)
}

/// The cell reached by taking one step `d` from `c`, as unbounded integers.
pub open spec fn dest_x(c: Coord, d: Dir) -> int {
    c.x + d.dx
}

/// The cell reached by taking one step `d` from `c`, as unbounded integers.
pub open spec fn dest_y(c: Coord, d: Dir) -> int {
    c.y + d.dy
}

/// `b` is one king-step away from `a`: each axis differs by at most one and
/// the two cells are distinct.
pub open spec fn adjacent(a: Coord, b: Coord) -> bool {
    -1 <= b.x - a.x <= 1 && -1 <= b.y - a.y <= 1 && !(a.x == b.x && a.y == b.y)
}

/// Whether one step `d` from `pos` stays on a grid of side `grid_size`.
pub fn can_move(pos: Coord, d: Dir, grid_size: i32) -> (r: bool)
    requires
        valid_size(grid_size as int),
        in_bounds(pos, grid_size as int),
        is_dir(d),
    ensures
        r == (1 <= dest_x(pos, d) <= grid_size && 1 <= dest_y(pos, d) <= grid_size),
{
    let x = pos.x + d.dx;
    let y = pos.y + d.dy;
    1 <= x && x <= grid_size && 1 <= y && y <= grid_size
}

} // verus!

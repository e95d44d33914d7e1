//! The motion planner: enumerate the legal single-step moves from a cell and
//! sample one of them, and draw fresh random positions.

use vstd::prelude::*;

use crate::geom::Coord;
use crate::geom::Dir;
use crate::geom::adjacent;
use crate::geom::can_move;
use crate::geom::dest_x;
use crate::geom::dest_y;
use crate::geom::in_bounds;
use crate::geom::is_dir;
use crate::geom::valid_size;
use crate::rng::random_in_range;

verus! {

/// The eight move offsets, in a fixed enumeration order.
pub open spec fn all_dirs_spec() -> Seq<Dir> {
    seq![
        Dir { dx: -1i32, dy: 1 },
        Dir { dx: 0, dy: 1 },
        Dir { dx: 1, dy: 1 },
        Dir { dx: -1i32, dy: 0 },
        Dir { dx: 1, dy: 0 },
        Dir { dx: -1i32, dy: -1i32 },
        Dir { dx: 0, dy: -1i32 },
        Dir { dx: 1, dy: -1i32 },
    ]
}

/// Every legal move offset occurs in the enumeration.
pub proof fn lemma_all_dirs_complete(d: Dir)
    requires
        is_dir(d),
    ensures
        all_dirs_spec().contains(d),
{
    if d.dx == -1 && d.dy == 1 {
        assert(all_dirs_spec()[0] == d);
    } else if d.dx == 0 && d.dy == 1 {
        assert(all_dirs_spec()[1] == d);
    } else if d.dx == 1 && d.dy == 1 {
        assert(all_dirs_spec()[2] == d);
    } else if d.dx == -1 && d.dy == 0 {
        assert(all_dirs_spec()[3] == d);
    } else if d.dx == 1 && d.dy == 0 {
        assert(all_dirs_spec()[4] == d);
    } else if d.dx == -1 && d.dy == -1 {
        assert(all_dirs_spec()[5] == d);
    } else if d.dx == 0 && d.dy == -1 {
        assert(all_dirs_spec()[6] == d);
    } else {
        assert(all_dirs_spec()[7] == d);
    }
}

/// The eight move offsets as a vector, in the enumeration order.
pub fn all_dirs() -> (v: Vec<Dir>)
    ensures
        v@ == all_dirs_spec(),
{
    let mut v: Vec<Dir> = Vec::new();
    v.push(Dir { dx: -1i32, dy: 1 });
    v.push(Dir { dx: 0, dy: 1 });
    v.push(Dir { dx: 1, dy: 1 });
    v.push(Dir { dx: -1i32, dy: 0 });
    v.push(Dir { dx: 1, dy: 0 });
    v.push(Dir { dx: -1i32, dy: -1i32 });
    v.push(Dir { dx: 0, dy: -1i32 });
    v.push(Dir { dx: 1, dy: -1i32 });
    proof {
        assert(v@ =~= all_dirs_spec());
    }
    v
}

/// A move offset is legal from `pos` on a grid of side `s` when it is one of
/// the eight offsets and its destination stays on the grid.
pub open spec fn legal_move(pos: Coord, d: Dir, s: int) -> bool {
    is_dir(d) && 1 <= dest_x(pos, d) <= s && 1 <= dest_y(pos, d) <= s
}

/// All legal single-step moves from `pos` on a grid of side `grid_size`.
///
/// The result is exactly the set of legal offsets — sound (every entry is
/// legal) and complete (every legal offset occurs) — and it is never empty:
/// on any grid of side at least 2 every cell has an in-bounds neighbor.
pub fn legal_moves(pos: Coord, grid_size: i32) -> (moves: Vec<Dir>)
    requires
        valid_size(grid_size as int),
        in_bounds(pos, grid_size as int),
    ensures
        forall|i: int| 0 <= i < moves@.len() ==> legal_move(pos, moves@[i], grid_size as int),
        forall|d: Dir| legal_move(pos, d, grid_size as int) ==> moves@.contains(d),
        0 < moves@.len() <= 8,
{
    let dirs = all_dirs();
    let mut moves: Vec<Dir> = Vec::new();
    let mut k: usize = 0;
    while k < dirs.len()
        invariant
            valid_size(grid_size as int),
            in_bounds(pos, grid_size as int),
            dirs@ == all_dirs_spec(),
            k <= dirs@.len(),
            moves@.len() <= k,
            forall|i: int| 0 <= i < moves@.len() ==> legal_move(pos, moves@[i], grid_size as int),
            forall|j: int| 0 <= j < k && legal_move(pos, dirs@[j], grid_size as int)
                ==> moves@.contains(dirs@[j]),
        decreases dirs@.len() - k,
    {
        let ghost prev = moves@;
        let d = dirs[k];
        let ok = can_move(pos, d, grid_size);
        if ok {
            moves.push(d);
        }
        proof {
            assert forall|j: int|
                0 <= j < k + 1 && legal_move(pos, dirs@[j], grid_size as int)
                    implies moves@.contains(dirs@[j]) by {
                if j < k {
                    let i = choose|i: int| 0 <= i < prev.len() && prev[i] == dirs@[j];
                    assert(moves@[i] == dirs@[j]);
                } else {
                    assert(moves@[moves@.len() - 1] == d);
                }
            }
        }
        k = k + 1;
    }
    proof {
        assert forall|d: Dir| legal_move(pos, d, grid_size as int) implies moves@.contains(d) by {
            lemma_all_dirs_complete(d);
            let j = choose|j: int| 0 <= j < all_dirs_spec().len() && all_dirs_spec()[j] == d;
            assert(legal_move(pos, dirs@[j], grid_size as int));
        }
        // Non-emptiness: a horizontal step is always available.
        let witness = if pos.x < grid_size {
            Dir { dx: 1, dy: 0 }
        } else {
            Dir { dx: -1i32, dy: 0 }
        };
        assert(legal_move(pos, witness, grid_size as int));
        assert(moves@.contains(witness));
    }
    moves
}

/// A uniformly random element of a non-empty vector of move offsets.
pub fn choose_one(moves: &Vec<Dir>) -> (d: Dir)
    requires
        0 < moves@.len() <= 0x7fffffff,
    ensures
        moves@.contains(d),
{
    let idx = random_in_range(0, moves.len() as i32 - 1);
    let d = moves[idx as usize];
    proof {
        assert(moves@.contains(moves@[idx as int]));
    }
    d
}

/// Plan the next cell: one uniformly random legal step away from `pos`.
///
/// The planned cell is always in bounds and adjacent to `pos`, so a planner
/// invocation never fails: `legal_moves` is never empty.
pub fn plan_next(pos: Coord, grid_size: i32) -> (next: Coord)
    requires
        valid_size(grid_size as int),
        in_bounds(pos, grid_size as int),
    ensures
        in_bounds(next, grid_size as int),
        adjacent(pos, next),
{
    let moves = legal_moves(pos, grid_size);
    let d = choose_one(&moves);
    Coord { x: pos.x + d.dx, y: pos.y + d.dy }
}

/// A uniformly random cell of a grid of side `grid_size`, each axis drawn
/// independently.
pub fn random_position(grid_size: i32) -> (c: Coord)
    requires
        valid_size(grid_size as int),
    ensures
        in_bounds(c, grid_size as int),
{
    let x = random_in_range(1, grid_size);
    let y = random_in_range(1, grid_size);
    Coord { x, y }
}

} // verus!

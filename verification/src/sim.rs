//! The tick state machine: the whole simulation state — trail grid, the two
//! tokens, and the tick clock — advanced by exactly one discrete tick at a
//! time.

use vstd::prelude::*;

use crate::collision::collided;
use crate::collision::collided_spec;
use crate::color::Rgb;
use crate::color::Rgba;
use crate::color::TRAIL_ALPHA;
use crate::color::background;
use crate::color::generate_random_color;
use crate::color::initial_colors;
use crate::color::trail_variant;
use crate::color::with_alpha;
use crate::geom::Coord;
use crate::geom::MAX_GRID_SIZE;
use crate::geom::adjacent;
use crate::geom::in_bounds;
use crate::geom::valid_size;
use crate::grid::GridState;
use crate::interp::TICK_MILLIS;
use crate::motion::plan_next;
use crate::motion::random_position;

verus! {

/// The full persistent simulation state: the trail grid, both tokens (each a
/// committed position, a planned next position, a marker color and its trail
/// variant), and the time of the last committed tick.
pub struct Sim {
    grid: GridState,
    pos1: Coord,
    next1: Coord,
    pos2: Coord,
    next2: Coord,
    color1: Rgb,
    trail1: Rgba,
    color2: Rgb,
    trail2: Rgba,
    last_tick_ms: u64,
}

impl Sim {
    /// The grid side length.
    pub closed spec fn size(&self) -> int {
        self.grid.size()
    }

    /// Token 1's last committed position.
    pub closed spec fn pos1(&self) -> Coord {
        self.pos1
    }

    /// Token 1's planned destination for the upcoming tick.
    pub closed spec fn next1(&self) -> Coord {
        self.next1
    }

    /// Token 2's last committed position.
    pub closed spec fn pos2(&self) -> Coord {
        self.pos2
    }

    /// Token 2's planned destination for the upcoming tick.
    pub closed spec fn next2(&self) -> Coord {
        self.next2
    }

    /// Token 1's opaque marker color.
    pub closed spec fn color1(&self) -> Rgb {
        self.color1
    }

    /// Token 2's opaque marker color.
    pub closed spec fn color2(&self) -> Rgb {
        self.color2
    }

    /// Token 1's faint trail color.
    pub closed spec fn trail1(&self) -> Rgba {
        self.trail1
    }

    /// Token 2's faint trail color.
    pub closed spec fn trail2(&self) -> Rgba {
        self.trail2
    }

    /// The color of grid cell `(i, j)`, one-based.
    pub closed spec fn cell(&self, i: int, j: int) -> Rgba {
        self.grid.cell(i, j)
    }

    /// Elapsed milliseconds since start at the last committed tick.
    pub closed spec fn last_tick(&self) -> int {
        self.last_tick_ms as int
    }

    /// Well-formedness: a valid grid, both tokens on it, each planned move
    /// one legal step away, and each trail color the faint variant of its
    /// marker color.
    pub closed spec fn wf(&self) -> bool {
        &&& self.grid.wf()
        &&& in_bounds(self.pos1, self.size())
        &&& in_bounds(self.pos2, self.size())
        &&& in_bounds(self.next1, self.size())
        &&& in_bounds(self.next2, self.size())
        &&& adjacent(self.pos1, self.next1)
        &&& adjacent(self.pos2, self.next2)
        &&& self.trail1 == trail_variant(self.color1)
        &&& self.trail2 == trail_variant(self.color2)
    }

    /// Whether the upcoming tick will collide: the two planned destinations
    /// coincide, or the two move segments properly cross.
    pub open spec fn will_collide(&self) -> bool {
        collided_spec(self.pos1(), self.next1(), self.pos2(), self.next2())
    }
}

/// What one committed tick does to the state, with `pre` the state before
/// and `post` the state after.
///
/// The grid side grows by one exactly when the tick collided, and never
/// otherwise changes. Without a collision both tokens commit their planned
/// destinations, paint their trails there, and everything else is kept.
/// With a collision the grid is reset to the background wholesale, both
/// tokens are relocated and recolored, and only their two fresh trail marks
/// are painted. Either way both tokens leave with a legal planned move on
/// the (possibly grown) grid.
pub open spec fn tick_post(pre: Sim, post: Sim) -> bool {
    let c1 = pre.next1();
    let c2 = pre.next2();
    let grew = pre.will_collide();
    &&& post.wf()
    &&& post.size() == pre.size() + (if grew {
        1int
    } else {
        0int
    })
    &&& (!grew ==> {
        &&& post.pos1() == c1
        &&& post.pos2() == c2
        &&& post.color1() == pre.color1()
        &&& post.color2() == pre.color2()
        &&& post.trail1() == pre.trail1()
        &&& post.trail2() == pre.trail2()
        &&& post.cell(c1.x as int, c1.y as int) == pre.trail1()
        &&& post.cell(c2.x as int, c2.y as int) == pre.trail2()
        &&& forall|i: int, j: int|
            1 <= i <= pre.size() && 1 <= j <= pre.size() && !(i == c1.x && j == c1.y) && !(i
                == c2.x && j == c2.y) ==> post.cell(i, j) == pre.cell(i, j)
    })
    &&& (grew ==> {
        &&& in_bounds(post.pos1(), post.size())
        &&& in_bounds(post.pos2(), post.size())
        &&& post.cell(post.pos2().x as int, post.pos2().y as int) == post.trail2()
        &&& (post.pos1() != post.pos2() ==> post.cell(post.pos1().x as int, post.pos1().y as int)
            == post.trail1())
        &&& forall|i: int, j: int|
            1 <= i <= post.size() && 1 <= j <= post.size() && !(i == post.pos1().x && j
                == post.pos1().y) && !(i == post.pos2().x && j == post.pos2().y) ==> post.cell(
                i,
                j,
            ) == background()
    })
}

/// Growth is the only way the grid side changes, and it only increases: a
/// committed tick leaves the side unchanged exactly when it did not collide,
/// and raises it by exactly one when it did — the side never decreases, and
/// never repeats a growth without an intervening collision.
pub proof fn lemma_growth_monotone(pre: Sim, post: Sim)
    requires
        tick_post(pre, post),
    ensures
        post.size() >= pre.size(),
        (post.size() == pre.size() + 1) == pre.will_collide(),
        (post.size() == pre.size()) == !pre.will_collide(),
{
}

/// After a growth tick every cell of the grown grid is the background color
/// except the freshly painted trail cells of the two relocated tokens (one
/// cell where they coincide).
pub proof fn lemma_growth_resets(pre: Sim, post: Sim)
    requires
        tick_post(pre, post),
        pre.will_collide(),
    ensures
        forall|i: int, j: int|
            1 <= i <= post.size() && 1 <= j <= post.size() && !(i == post.pos1().x && j
                == post.pos1().y) && !(i == post.pos2().x && j == post.pos2().y) ==> post.cell(
                i,
                j,
            ) == background(),
        post.cell(post.pos2().x as int, post.pos2().y as int) == post.trail2(),
        post.pos1() != post.pos2() ==> post.cell(post.pos1().x as int, post.pos1().y as int)
            == post.trail1(),
{
}

/// Whether `b` is one king-step away from `a`, for bounded coordinates.
fn adjacent_check(a: Coord, b: Coord) -> (r: bool)
    requires
        1 <= a.x <= MAX_GRID_SIZE,
        1 <= a.y <= MAX_GRID_SIZE,
        1 <= b.x <= MAX_GRID_SIZE,
        1 <= b.y <= MAX_GRID_SIZE,
    ensures
        r == adjacent(a, b),
{
    let dx = b.x - a.x;
    let dy = b.y - a.y;
    -1 <= dx && dx <= 1 && -1 <= dy && dy <= 1 && !(dx == 0 && dy == 0)
}

/// Whether `c` addresses a cell of a grid of side `size`.
fn in_bounds_check(c: Coord, size: i32) -> (r: bool)
    ensures
        r == in_bounds(c, size as int),
{
    1 <= c.x && c.x <= size && 1 <= c.y && c.y <= size
}

impl Sim {
    /// A fresh simulation: a 2-by-2 grid, two independent random marker
    /// colors, random initial positions with their trails painted (token
    /// 2's on top where they coincide), and one planned move each.
    pub fn new(start_ms: u64) -> (s: Sim)
        ensures
            s.wf(),
            s.size() == 2,
            s.last_tick() == start_ms,
            s.cell(s.pos2().x as int, s.pos2().y as int) == s.trail2(),
            s.pos1() != s.pos2() ==> s.cell(s.pos1().x as int, s.pos1().y as int) == s.trail1(),
            forall|i: int, j: int|
                1 <= i <= 2 && 1 <= j <= 2 && !(i == s.pos1().x && j == s.pos1().y) && !(i
                    == s.pos2().x && j == s.pos2().y) ==> s.cell(i, j) == background(),
    {
        let ((color1, trail1), (color2, trail2)) = initial_colors();
        let mut grid = GridState::new(2);
        let pos1 = random_position(2);
        let pos2 = random_position(2);
        grid.paint(pos1, trail1);
        grid.paint(pos2, trail2);
        let next1 = plan_next(pos1, 2);
        let next2 = plan_next(pos2, 2);
        Sim { grid, pos1, next1, pos2, next2, color1, trail1, color2, trail2, last_tick_ms: start_ms }
    }

    /// A simulation assembled from chosen parts: the given grid side, token
    /// positions, planned moves and marker colors, with both trails painted
    /// on a fresh background grid (token 2's on top where the positions
    /// coincide). Returns nothing exactly when the parts are not a valid
    /// state: a side out of range, a coordinate off the grid, or a planned
    /// move that is not one legal step away.
    pub fn from_parts(
        size: i32,
        pos1: Coord,
        next1: Coord,
        pos2: Coord,
        next2: Coord,
        color1: Rgb,
        color2: Rgb,
        start_ms: u64,
    ) -> (r: Option<Sim>)
        ensures
            r is Some == (valid_size(size as int) && in_bounds(pos1, size as int) && in_bounds(
                next1,
                size as int,
            ) && in_bounds(pos2, size as int) && in_bounds(next2, size as int) && adjacent(
                pos1,
                next1,
            ) && adjacent(pos2, next2)),
            r is Some ==> {
                let s = r->Some_0;
                &&& s.wf()
                &&& s.size() == size
                &&& s.pos1() == pos1
                &&& s.next1() == next1
                &&& s.pos2() == pos2
                &&& s.next2() == next2
                &&& s.color1() == color1
                &&& s.color2() == color2
                &&& s.trail1() == trail_variant(color1)
                &&& s.trail2() == trail_variant(color2)
                &&& s.last_tick() == start_ms
                &&& s.cell(pos2.x as int, pos2.y as int) == s.trail2()
                &&& (pos1 != pos2 ==> s.cell(pos1.x as int, pos1.y as int) == s.trail1())
                &&& forall|i: int, j: int|
                    1 <= i <= size && 1 <= j <= size && !(i == pos1.x && j == pos1.y) && !(i
                        == pos2.x && j == pos2.y) ==> s.cell(i, j) == background()
            },
    {
        if !(2 <= size && size <= MAX_GRID_SIZE) {
            return None;
        }
        if !(in_bounds_check(pos1, size) && in_bounds_check(next1, size) && in_bounds_check(
            pos2,
            size,
        ) && in_bounds_check(next2, size)) {
            return None;
        }
        if !(adjacent_check(pos1, next1) && adjacent_check(pos2, next2)) {
            return None;
        }
        let trail1 = with_alpha(color1, TRAIL_ALPHA);
        let trail2 = with_alpha(color2, TRAIL_ALPHA);
        let mut grid = GridState::new(size);
        grid.paint(pos1, trail1);
        grid.paint(pos2, trail2);
        Some(
            Sim { grid, pos1, next1, pos2, next2, color1, trail1, color2, trail2, last_tick_ms: start_ms },
        )
    }

    /// The grid side length as a value.
    pub fn side(&self) -> (s: i32)
        requires
            self.wf(),
        ensures
            s as int == self.size(),
            valid_size(s as int),
    {
        self.grid.side()
    }

    /// Token 1's last committed position.
    pub fn position1(&self) -> (c: Coord)
        ensures
            c == self.pos1(),
    {
        self.pos1
    }

    /// Token 2's last committed position.
    pub fn position2(&self) -> (c: Coord)
        ensures
            c == self.pos2(),
    {
        self.pos2
    }

    /// Token 1's planned destination.
    pub fn planned1(&self) -> (c: Coord)
        ensures
            c == self.next1(),
    {
        self.next1
    }

    /// Token 2's planned destination.
    pub fn planned2(&self) -> (c: Coord)
        ensures
            c == self.next2(),
    {
        self.next2
    }

    /// Token 1's marker color.
    pub fn marker1(&self) -> (c: Rgb)
        ensures
            c == self.color1(),
    {
        self.color1
    }

    /// Token 2's marker color.
    pub fn marker2(&self) -> (c: Rgb)
        ensures
            c == self.color2(),
    {
        self.color2
    }

    /// Token 1's trail color.
    pub fn trail_color1(&self) -> (c: Rgba)
        ensures
            c == self.trail1(),
    {
        self.trail1
    }

    /// Token 2's trail color.
    pub fn trail_color2(&self) -> (c: Rgba)
        ensures
            c == self.trail2(),
    {
        self.trail2
    }

    /// The color of the grid cell at `coord`.
    pub fn cell_color(&self, coord: Coord) -> (c: Rgba)
        requires
            self.wf(),
            in_bounds(coord, self.size()),
        ensures
            c == self.cell(coord.x as int, coord.y as int),
    {
        self.grid.cell_at(coord)
    }

    /// Elapsed milliseconds since start at the last committed tick.
    pub fn last_tick_millis(&self) -> (t: u64)
        ensures
            t as int == self.last_tick(),
    {
        self.last_tick_ms
    }

    /// Advance the simulation by exactly one discrete tick.
    ///
    /// Commits both planned moves, paints their trails, tests the collision
    /// verdict on the pre-commit positions, and on a collision grows and
    /// resets the grid and recreates both tokens; finally plans both next
    /// moves on the current grid. Returns whether the tick collided — which
    /// is exactly when the grid grew by one.
    pub fn tick(&mut self) -> (grew: bool)
        requires
            old(self).wf(),
            old(self).size() < MAX_GRID_SIZE,
        ensures
            grew == old(self).will_collide(),
            tick_post(*old(self), *final(self)),
            final(self).last_tick() == old(self).last_tick(),
    {
        let p1 = self.pos1;
        let p2 = self.pos2;
        let c1 = self.next1;
        let c2 = self.next2;
        let t1 = self.trail1;
        let t2 = self.trail2;
        self.pos1 = c1;
        self.pos2 = c2;
        self.grid.paint(c1, t1);
        self.grid.paint(c2, t2);
        let grew = collided(p1, c1, p2, c2);
        if grew {
            let grown = self.grid.grow();
            self.grid = grown;
            let s = self.grid.side();
            let q1 = random_position(s);
            let q2 = random_position(s);
            self.pos1 = q1;
            self.pos2 = q2;
            let (col1, tr1) = generate_random_color();
            let (col2, tr2) = generate_random_color();
            self.color1 = col1;
            self.trail1 = tr1;
            self.color2 = col2;
            self.trail2 = tr2;
            self.grid.paint(q1, tr1);
            self.grid.paint(q2, tr2);
        }
        let s = self.grid.side();
        let n1 = plan_next(self.pos1, s);
        let n2 = plan_next(self.pos2, s);
        self.next1 = n1;
        self.next2 = n2;
        grew
    }

    /// Drive the clock: commit a tick exactly when more than one tick period
    /// has elapsed since the last committed tick, and otherwise change
    /// nothing. Returns whether a tick was committed.
    pub fn advance(&mut self, now_ms: u64) -> (ticked: bool)
        requires
            old(self).wf(),
            old(self).size() < MAX_GRID_SIZE,
            old(self).last_tick() <= now_ms,
        ensures
            ticked == (now_ms - old(self).last_tick() > TICK_MILLIS),
            !ticked ==> *final(self) == *old(self),
            ticked ==> tick_post(*old(self), *final(self)),
            ticked ==> final(self).last_tick() == now_ms,
    {
        let dt = now_ms - self.last_tick_ms;
        if dt > TICK_MILLIS as u64 {
            self.last_tick_ms = now_ms;
            let _grew = self.tick();
            true
        } else {
            false
        }
    }
}

} // verus!

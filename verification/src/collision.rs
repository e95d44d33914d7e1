//! Collision detection: two simultaneous single-tick moves collide when they
//! land on the same cell or their straight path segments properly cross.
//!
//! The crossing test uses strict counter-clockwise orientation predicates, so
//! collinear-overlapping segments (tokens sliding through each other along
//! one line) are deliberately not reported as crossing.

use vstd::prelude::*;

use crate::geom::Coord;
use crate::geom::MAX_GRID_SIZE;

verus! {

/// Both components of `c` lie within the supported coordinate range.
pub open spec fn coord_bounded(c: Coord) -> bool {
    1 <= c.x <= MAX_GRID_SIZE && 1 <= c.y <= MAX_GRID_SIZE
}

/// The triple `(a, b, c)` makes a strict counter-clockwise turn.
pub open spec fn ccw_spec(a: Coord, b: Coord, c: Coord) -> bool {
    (c.y - a.y) * (b.x - a.x) > (b.y - a.y) * (c.x - a.x)
}

/// The closed segments `a`–`b` and `c`–`d` properly intersect: the endpoints
/// of each lie strictly on opposite sides of the other.
pub open spec fn segments_intersect(a: Coord, b: Coord, c: Coord, d: Coord) -> bool {
    ccw_spec(a, c, d) != ccw_spec(b, c, d) && ccw_spec(a, b, c) != ccw_spec(a, b, d)
}

/// The moves `a -> a2` and `b -> b2` collide: same destination cell, or
/// properly crossing path segments.
pub open spec fn collided_spec(a: Coord, a2: Coord, b: Coord, b2: Coord) -> bool {
    a2 == b2 || segments_intersect(a, a2, b, b2)
}

/// Whether `(a, b, c)` is a strict counter-clockwise turn.
pub fn ccw(a: Coord, b: Coord, c: Coord) -> (r: bool)
    requires
        coord_bounded(a),
        coord_bounded(b),
        coord_bounded(c),
    ensures
        r == ccw_spec(a, b, c),
{
    let cy_ay = c.y as i64 - a.y as i64;
    let bx_ax = b.x as i64 - a.x as i64;
    let by_ay = b.y as i64 - a.y as i64;
    let cx_ax = c.x as i64 - a.x as i64;
    proof {
        assert(-100000000 <= cy_ay * bx_ax <= 100000000 && -100000000 <= by_ay * cx_ax
            <= 100000000) by (nonlinear_arith)
            requires
                -10000 <= cy_ay <= 10000,
                -10000 <= bx_ax <= 10000,
                -10000 <= by_ay <= 10000,
                -10000 <= cx_ax <= 10000,
        ;
    }
    cy_ay * bx_ax > by_ay * cx_ax
}

/// Whether the segments `a`–`b` and `c`–`d` properly intersect.
pub fn intersect(a: Coord, b: Coord, c: Coord, d: Coord) -> (r: bool)
    requires
        coord_bounded(a),
        coord_bounded(b),
        coord_bounded(c),
        coord_bounded(d),
    ensures
        r == segments_intersect(a, b, c, d),
{
    ccw(a, c, d) != ccw(b, c, d) && ccw(a, b, c) != ccw(a, b, d)
}

/// Whether the moves `a -> a2` and `b -> b2` collide.
pub fn collided(a: Coord, a2: Coord, b: Coord, b2: Coord) -> (r: bool)
    requires
        coord_bounded(a),
        coord_bounded(a2),
        coord_bounded(b),
        coord_bounded(b2),
    ensures
        r == collided_spec(a, a2, b, b2),
{
    (a2 == b2) || intersect(a, a2, b, b2)
}

/// Orientation is invariant under cyclic rotation of the triple.
pub proof fn lemma_ccw_cyclic(p: Coord, q: Coord, r: Coord)
    ensures
        ccw_spec(p, q, r) == ccw_spec(q, r, p),
{
    assert(((r.y - p.y) * (q.x - p.x) > (q.y - p.y) * (r.x - p.x)) == ((p.y - q.y) * (r.x - q.x)
        > (r.y - q.y) * (p.x - q.x))) by (nonlinear_arith);
}

/// The collision verdict is symmetric in the two tokens: swapping token 1's
/// and token 2's (old, new) position pairs never changes it.
pub proof fn lemma_collided_symmetric(a: Coord, a2: Coord, b: Coord, b2: Coord)
    ensures
        collided_spec(a, a2, b, b2) == collided_spec(b, b2, a, a2),
{
    lemma_ccw_cyclic(b, a, a2);
    lemma_ccw_cyclic(b2, a, a2);
    lemma_ccw_cyclic(a, b, b2);
    lemma_ccw_cyclic(a2, b, b2);
}

} // verus!

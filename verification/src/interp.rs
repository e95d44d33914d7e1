//! Sub-tick motion interpolation: a quadratic ease-in-ease-out applied to the
//! elapsed fraction of the tick, then a per-axis linear blend between the
//! last committed position and the planned next position.
//!
//! The elapsed fraction is carried in milliseconds of the one-second tick
//! (`0..=1000`), and points are returned in millionths of a cell unit, so
//! every result is exact integer arithmetic.

use vstd::prelude::*;

use crate::geom::Coord;
use crate::geom::MAX_GRID_SIZE;

verus! {

/// Milliseconds in one tick: the denominator of the elapsed fraction.
pub const TICK_MILLIS: u32 = 1000;

/// Scale of an interpolated point: millionths of one cell unit.
pub const POINT_SCALE: i64 = 1000000;

/// A sub-cell point in millionths of a cell unit: the cell coordinate
/// `(x, y)` sits at `(x * 1000000, y * 1000000)`.
#[derive(Clone, Copy, PartialEq, Eq, Structural, Debug)]
pub struct InterpPoint {
    pub x: i64,
    pub y: i64,
}

/// The eased fraction, in millionths, of an elapsed fraction of `n`
/// milliseconds: `2 t^2` below the halfway point, `-1 + (4 - 2 t) t` from it
/// on, with `t = n / 1000`.
pub open spec fn ease_num(n: int) -> int {
    if n < 500 {
        2 * n * n
    } else {
        4000 * n - 2 * n * n - 1000000
    }
}

/// The interpolated x-axis value, in millionths: `pos.x` plus the eased
/// share of the way toward `next.x`.
pub open spec fn interp_x(pos: Coord, next: Coord, n: int) -> int {
    pos.x * 1000000 + (next.x - pos.x) * ease_num(n)
}

/// The interpolated y-axis value, in millionths.
pub open spec fn interp_y(pos: Coord, next: Coord, n: int) -> int {
    pos.y * 1000000 + (next.y - pos.y) * ease_num(n)
}

/// The eased fraction never leaves `[0, 1]`: in millionths, `[0, 1000000]`.
pub proof fn lemma_ease_bounds(n: int)
    requires
        0 <= n <= 1000,
    ensures
        0 <= ease_num(n) <= 1000000,
{
    assert(0 <= ease_num(n) <= 1000000) by (nonlinear_arith)
        requires
            0 <= n <= 1000,
    ;
}

/// At the start of the tick the eased fraction is exactly zero.
pub proof fn lemma_ease_zero()
    ensures
        ease_num(0) == 0,
{
}

/// At the halfway point the eased fraction is exactly one half.
pub proof fn lemma_ease_half()
    ensures
        ease_num(500) == 500000,
{
}

/// At the end of the tick the eased fraction is exactly one.
pub proof fn lemma_ease_one()
    ensures
        ease_num(1000) == 1000000,
{
}

/// From the halfway point on, the shortfall from one is exactly twice the
/// square of the remaining fraction, so the eased fraction tends to one as
/// the elapsed fraction does.
pub proof fn lemma_ease_near_one(n: int)
    requires
        500 <= n <= 1000,
    ensures
        1000000 - ease_num(n) == 2 * (1000 - n) * (1000 - n),
{
    assert(1000000 - ease_num(n) == 2 * (1000 - n) * (1000 - n)) by (nonlinear_arith)
        requires
            500 <= n <= 1000,
    ;
}

/// At an elapsed fraction of zero the interpolated point is exactly the
/// committed position.
pub proof fn lemma_interp_at_zero(pos: Coord, next: Coord)
    ensures
        interp_x(pos, next, 0) == pos.x * 1000000,
        interp_y(pos, next, 0) == pos.y * 1000000,
{
    assert(ease_num(0) == 0);
    assert(interp_x(pos, next, 0) == pos.x * 1000000 + (next.x - pos.x) * 0);
    assert(interp_y(pos, next, 0) == pos.y * 1000000 + (next.y - pos.y) * 0);
}

/// At the halfway point the interpolated point is the exact midpoint of the
/// committed and the planned position.
pub proof fn lemma_interp_midpoint(pos: Coord, next: Coord)
    ensures
        2 * interp_x(pos, next, 500) == (pos.x + next.x) * 1000000,
        2 * interp_y(pos, next, 500) == (pos.y + next.y) * 1000000,
{
    assert(2 * (pos.x * 1000000 + (next.x - pos.x) * 500000) == (pos.x + next.x) * 1000000)
        by (nonlinear_arith);
    assert(2 * (pos.y * 1000000 + (next.y - pos.y) * 500000) == (pos.y + next.y) * 1000000)
        by (nonlinear_arith);
}

/// From the halfway point on, the interpolated point falls short of the
/// planned position by exactly the per-axis move length scaled by twice the
/// square of the remaining fraction: it approaches `next` as the elapsed
/// fraction approaches one, and reaches it at one.
pub proof fn lemma_interp_near_end(pos: Coord, next: Coord, n: int)
    requires
        500 <= n <= 1000,
    ensures
        next.x * 1000000 - interp_x(pos, next, n) == (next.x - pos.x) * (2 * (1000 - n) * (1000
            - n)),
        next.y * 1000000 - interp_y(pos, next, n) == (next.y - pos.y) * (2 * (1000 - n) * (1000
            - n)),
{
    lemma_ease_near_one(n);
    assert(next.x * 1000000 - (pos.x * 1000000 + (next.x - pos.x) * ease_num(n)) == (next.x
        - pos.x) * (1000000 - ease_num(n))) by (nonlinear_arith);
    assert(next.y * 1000000 - (pos.y * 1000000 + (next.y - pos.y) * ease_num(n)) == (next.y
        - pos.y) * (1000000 - ease_num(n))) by (nonlinear_arith);
}

/// The interpolator is a pure function of its arguments: any two points that
/// satisfy its contract for the same arguments are the same point, so
/// repeated evaluation at the same instant yields the same result.
pub proof fn lemma_interp_deterministic(pos: Coord, next: Coord, n: int, p: InterpPoint, q: InterpPoint)
    requires
        p.x == interp_x(pos, next, n),
        p.y == interp_y(pos, next, n),
        q.x == interp_x(pos, next, n),
        q.y == interp_y(pos, next, n),
    ensures
        p == q,
{
}

/// The eased fraction of `t_millis` elapsed milliseconds, in millionths.
fn eased(t_millis: u32) -> (e: i64)
    requires
        t_millis <= 1000,
    ensures
        e == ease_num(t_millis as int),
        0 <= e <= 1000000,
{
    let n = t_millis as i64;
    proof {
        lemma_ease_bounds(t_millis as int);
        assert(0 <= 2 * n * n <= 2000000) by (nonlinear_arith)
            requires
                0 <= n <= 1000,
        ;
    }
    if t_millis < 500 {
        2 * n * n
    } else {
        4000 * n - 2 * n * n - 1000000
    }
}

/// The eased intermediate point between a token's last committed position
/// and its planned next position, `t_millis` milliseconds into the tick.
///
/// Each axis is blended independently; the result is in millionths of a cell
/// unit and is exact: at `t_millis == 0` it is the committed position, at
/// `t_millis == 1000` the planned one.
pub fn interpolate(pos: Coord, next: Coord, t_millis: u32) -> (p: InterpPoint)
    requires
        t_millis <= 1000,
        1 <= pos.x <= MAX_GRID_SIZE,
        1 <= pos.y <= MAX_GRID_SIZE,
        1 <= next.x <= MAX_GRID_SIZE,
        1 <= next.y <= MAX_GRID_SIZE,
    ensures
        p.x == interp_x(pos, next, t_millis as int),
        p.y == interp_y(pos, next, t_millis as int),
{
    let e = eased(t_millis);
    let dx = next.x as i64 - pos.x as i64;
    let dy = next.y as i64 - pos.y as i64;
    proof {
        assert(-10000000000 <= dx * e <= 10000000000 && -10000000000 <= dy * e <= 10000000000)
            by (nonlinear_arith)
            requires
                -10000 <= dx <= 10000,
                -10000 <= dy <= 10000,
                0 <= e <= 1000000,
        ;
    }
    let x = pos.x as i64 * 1000000 + dx * e;
    let y = pos.y as i64 * 1000000 + dy * e;
    InterpPoint { x, y }
}

} // verus!

//! Steering: normalize-or-zero direction vectors and the combination of
//! several attractions (or repulsions) into one desired direction.
//!
//! A direction is a pair of fixed-point components scaled by `UNIT`, so a
//! unit vector has components in `[-UNIT, UNIT]`. Normalizing the zero
//! vector yields the zero vector — never an error and never an undefined
//! value.

use vstd::prelude::*;

use crate::geom::{Vec2, POS_LIMIT, UNIT};
use crate::nums::{iabs, isqrt, isqrt_spec, lemma_isqrt_ge, sgn};
use vstd::arithmetic::div_mod::{
    lemma_div_is_ordered,
    lemma_div_multiples_vanish,
    lemma_div_pos_is_pos,
};

verus! {

/// The squared length of a vector, as a spec value.
pub open spec fn sq_len(dx: int, dy: int) -> int {
    dx * dx + dy * dy
}

/// The x component of "normalize or zero" of `(dx, dy)`, scaled by `UNIT`:
/// zero for the zero vector, otherwise the component magnitude times `UNIT`
/// divided by the integer length, with the component's sign.
pub open spec fn unit_x(dx: int, dy: int) -> int {
    if dx == 0 && dy == 0 {
        0
    } else {
        sgn(dx) * ((iabs(dx) * (UNIT as int)) / (isqrt_spec(sq_len(dx, dy) as nat) as int))
    }
}

/// The y component of "normalize or zero" of `(dx, dy)`.
pub open spec fn unit_y(dx: int, dy: int) -> int {
    if dx == 0 && dy == 0 {
        0
    } else {
        sgn(dy) * ((iabs(dy) * (UNIT as int)) / (isqrt_spec(sq_len(dx, dy) as nat) as int))
    }
}

/// Each component of a normalized vector lies in `[-UNIT, UNIT]`.
pub proof fn lemma_unit_bounds(dx: int, dy: int)
    ensures
        0 <= iabs(unit_x(dx, dy)) <= UNIT,
        0 <= iabs(unit_y(dx, dy)) <= UNIT,
{
    if dx == 0 && dy == 0 {
    } else {
        let n = sq_len(dx, dy);
        assert(iabs(dx) * iabs(dx) == dx * dx && iabs(dy) * iabs(dy) == dy * dy)
            by (nonlinear_arith)
            requires
                iabs(dx) == dx || iabs(dx) == -dx,
                iabs(dy) == dy || iabs(dy) == -dy,
        {
        }
        assert(n >= 1 && iabs(dx) * iabs(dx) <= n && iabs(dy) * iabs(dy) <= n)
            by (nonlinear_arith)
            requires
                n == dx * dx + dy * dy,
                dx != 0 || dy != 0,
        {
        }
        lemma_isqrt_ge(n as nat, 1);
        lemma_isqrt_ge(n as nat, iabs(dx) as nat);
        lemma_isqrt_ge(n as nat, iabs(dy) as nat);
        let l = isqrt_spec(n as nat) as int;
        lemma_div_pos_is_pos(iabs(dx) * (UNIT as int), l);
        lemma_div_pos_is_pos(iabs(dy) * (UNIT as int), l);
        lemma_div_is_ordered(iabs(dx) * (UNIT as int), l * (UNIT as int), l);
        lemma_div_is_ordered(iabs(dy) * (UNIT as int), l * (UNIT as int), l);
        lemma_div_multiples_vanish(UNIT as int, l);
    }
}

/// Normalize-or-zero: the unit direction from the origin toward `v`,
/// scaled by `UNIT`, or the zero vector when `v` is zero.
pub fn norm_or_zero(v: Vec2) -> (u: Vec2)
    ensures
        u.x == unit_x(v.x as int, v.y as int),
        u.y == unit_y(v.x as int, v.y as int),
        iabs(u.x as int) <= UNIT,
        iabs(u.y as int) <= UNIT,
{
    proof {
        lemma_unit_bounds(v.x as int, v.y as int);
    }
    if v.x == 0 && v.y == 0 {
        return Vec2 { x: 0, y: 0 };
    }
    let ax: u128 = if v.x >= 0 {
        v.x as u128
    } else {
        (-(v.x as i128)) as u128
    };
    let ay: u128 = if v.y >= 0 {
        v.y as u128
    } else {
        (-(v.y as i128)) as u128
    };
    assert(ax as int == iabs(v.x as int) && ay as int == iabs(v.y as int));
    assert(ax * ax == (v.x as int) * (v.x as int) && ay * ay == (v.y as int) * (v.y as int))
        by (nonlinear_arith)
        requires
            ax as int == iabs(v.x as int),
            ay as int == iabs(v.y as int),
            iabs(v.x as int) == v.x as int || iabs(v.x as int) == -(v.x as int),
            iabs(v.y as int) == v.y as int || iabs(v.y as int) == -(v.y as int),
    {
    }
    assert(ax * ax + ay * ay <= u128::MAX) by (nonlinear_arith)
        requires
            ax <= 0x8000_0000_0000_0000u128,
            ay <= 0x8000_0000_0000_0000u128,
    {
    }
    let n: u128 = ax * ax + ay * ay;
    let l = isqrt(n);
    proof {
        assert(n >= 1 && ax * ax <= n && ay * ay <= n) by (nonlinear_arith)
            requires
                n == ax * ax + ay * ay,
                ax >= 1 || ay >= 1,
        {
        }
        lemma_isqrt_ge(n as nat, 1);
        lemma_isqrt_ge(n as nat, ax as nat);
        lemma_isqrt_ge(n as nat, ay as nat);
    }
    let mx = ax * (UNIT as u128) / l;
    let my = ay * (UNIT as u128) / l;
    proof {
        lemma_div_is_ordered((ax * (UNIT as u128)) as int, l * (UNIT as int), l as int);
        lemma_div_is_ordered((ay * (UNIT as u128)) as int, l * (UNIT as int), l as int);
        lemma_div_multiples_vanish(UNIT as int, l as int);
    }
    let ux: i64 = if v.x >= 0 {
        mx as i64
    } else {
        -(mx as i64)
    };
    let uy: i64 = if v.y >= 0 {
        my as i64
    } else {
        -(my as i64)
    };
    Vec2 { x: ux, y: uy }
}

/// The x component of the sum of the unit vectors from `from` toward the
/// first `i` points of `ts`.
pub open spec fn steer_sum_x(from: Vec2, ts: Seq<Vec2>, i: int) -> int
    recommends
        0 <= i <= ts.len(),
    decreases i,
{
    if i <= 0 {
        0
    } else {
        steer_sum_x(from, ts, i - 1) + unit_x(
            ts[i - 1].x - from.x,
            ts[i - 1].y - from.y,
        )
    }
}

/// The y component of the sum of the unit vectors from `from` toward the
/// first `i` points of `ts`.
pub open spec fn steer_sum_y(from: Vec2, ts: Seq<Vec2>, i: int) -> int
    recommends
        0 <= i <= ts.len(),
    decreases i,
{
    if i <= 0 {
        0
    } else {
        steer_sum_y(from, ts, i - 1) + unit_y(
            ts[i - 1].x - from.x,
            ts[i - 1].y - from.y,
        )
    }
}

/// The x component of the steering direction: the renormalized sum of the
/// unit vectors toward every target, negated when repelling.
pub open spec fn steer_x(from: Vec2, ts: Seq<Vec2>, repel: bool) -> int {
    let sx = steer_sum_x(from, ts, ts.len() as int);
    let sy = steer_sum_y(from, ts, ts.len() as int);
    if repel {
        -unit_x(sx, sy)
    } else {
        unit_x(sx, sy)
    }
}

/// The y component of the steering direction.
pub open spec fn steer_y(from: Vec2, ts: Seq<Vec2>, repel: bool) -> int {
    let sx = steer_sum_x(from, ts, ts.len() as int);
    let sy = steer_sum_y(from, ts, ts.len() as int);
    if repel {
        -unit_y(sx, sy)
    } else {
        unit_y(sx, sy)
    }
}

/// Partial steering sums stay within `UNIT` per summand.
proof fn lemma_steer_sum_bounds(from: Vec2, ts: Seq<Vec2>, i: int)
    requires
        0 <= i <= ts.len(),
    ensures
        iabs(steer_sum_x(from, ts, i)) <= (UNIT as int) * i,
        iabs(steer_sum_y(from, ts, i)) <= (UNIT as int) * i,
    decreases i,
{
    if i > 0 {
        lemma_steer_sum_bounds(from, ts, i - 1);
        lemma_unit_bounds(ts[i - 1].x - from.x, ts[i - 1].y - from.y);
    }
}

/// Computes the steering direction for an actor at `from` given a list of
/// target points: the normalized sum of the unit vectors toward every
/// target, negated when `repel` is set. An empty target list yields the
/// zero vector.
pub fn steer(from: Vec2, targets: &Vec<Vec2>, repel: bool) -> (dir: Vec2)
    requires
        from.within(POS_LIMIT as int),
        forall|i: int| 0 <= i < targets@.len() ==> targets@[i].within(POS_LIMIT as int),
        targets@.len() <= 1_000_000_000,
    ensures
        dir.x == steer_x(from, targets@, repel),
        dir.y == steer_y(from, targets@, repel),
        iabs(dir.x as int) <= UNIT,
        iabs(dir.y as int) <= UNIT,
{
    let n = targets.len();
    let mut sx: i64 = 0;
    let mut sy: i64 = 0;
    let mut i: usize = 0;
    while i < n
        invariant
            i <= n,
            n == targets@.len(),
            n <= 1_000_000_000,
            from.within(POS_LIMIT as int),
            forall|j: int| 0 <= j < targets@.len() ==> targets@[j].within(POS_LIMIT as int),
            sx == steer_sum_x(from, targets@, i as int),
            sy == steer_sum_y(from, targets@, i as int),
            iabs(sx as int) <= (UNIT as int) * (i as int),
            iabs(sy as int) <= (UNIT as int) * (i as int),
        decreases n - i,
    {
        let t = targets[i];
        let d = Vec2 { x: t.x - from.x, y: t.y - from.y };
        let u = norm_or_zero(d);
        proof {
            lemma_steer_sum_bounds(from, targets@, i as int + 1);
        }
        sx = sx + u.x;
        sy = sy + u.y;
        i = i + 1;
    }
    let u = norm_or_zero(Vec2 { x: sx, y: sy });
    if repel {
        Vec2 { x: -u.x, y: -u.y }
    } else {
        Vec2 { x: u.x, y: u.y }
    }
}

/// Steering with an empty target list returns the zero vector.
pub proof fn lemma_steer_no_targets(from: Vec2, repel: bool)
    ensures
        steer_x(from, Seq::<Vec2>::empty(), repel) == 0,
        steer_y(from, Seq::<Vec2>::empty(), repel) == 0,
{
}

/// Prefix steering sums only depend on the prefix: pushing a further target
/// does not change them.
proof fn lemma_steer_sum_push(from: Vec2, ts: Seq<Vec2>, t: Vec2, i: int)
    requires
        0 <= i <= ts.len(),
    ensures
        steer_sum_x(from, ts.push(t), i) == steer_sum_x(from, ts, i),
        steer_sum_y(from, ts.push(t), i) == steer_sum_y(from, ts, i),
    decreases i,
{
    if i > 0 {
        lemma_steer_sum_push(from, ts, t, i - 1);
        assert(ts.push(t)[i - 1] == ts[i - 1]);
    }
}

/// A target coincident with the steering point contributes the zero vector
/// to the sum (normalize-or-zero, never an undefined direction): steering
/// with that target added equals steering without it.
pub proof fn lemma_steer_coincident_target(from: Vec2, ts: Seq<Vec2>, repel: bool)
    ensures
        steer_x(from, ts.push(from), repel) == steer_x(from, ts, repel),
        steer_y(from, ts.push(from), repel) == steer_y(from, ts, repel),
{
    let ext = ts.push(from);
    lemma_steer_sum_push(from, ts, from, ts.len() as int);
    assert(ext[ext.len() - 1] == from);
    assert(steer_sum_x(from, ext, ext.len() as int) == steer_sum_x(from, ext, ext.len() - 1)
        + unit_x(0, 0));
    assert(steer_sum_y(from, ext, ext.len() as int) == steer_sum_y(from, ext, ext.len() - 1)
        + unit_y(0, 0));
}

} // verus!

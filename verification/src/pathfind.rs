//! The obstacle-aware integrator: advances a rectangle along a desired
//! direction, then resolves penetration against static obstacle rectangles
//! by an iterative push-back, and finally re-projects the blocked axis.
//!
//! The push-back loop retreats the moved rectangle in fixed nudge steps
//! against the direction of travel until it no longer overlaps the
//! obstacle; the last observed intersection decides which axis of the
//! per-frame displacement is undone ("slide" resolution). Correction only
//! runs for diagonal movement: pure-axis movement is not corrected, a
//! deliberate asymmetry of the engine.

use vstd::prelude::*;

use crate::geom::{Rect, Vec2, POS_LIMIT, SIZE_LIMIT};
use crate::nums::{clamp_spec, clip0, iabs, tdiv};
use vstd::arithmetic::div_mod::{lemma_div_is_ordered, lemma_div_of0, lemma_div_pos_is_pos};

verus! {

/// Upper bound on a speed, in stored ticks per second.
pub const SPEED_LIMIT: i64 = 10_000_000;

/// Upper bound on a frame's elapsed time, in milliseconds.
pub const DT_LIMIT: i64 = 60_000;

/// Upper bound on the magnitude of a direction component.
pub const DIR_LIMIT: i64 = 2_000;

/// Push-back speed of the collision correction, in stored ticks per second.
pub const FIX_STEP: i64 = 5_000;

/// Divisor turning `speed * direction * dt` into stored ticks:
/// `UNIT` direction ticks times 1000 milliseconds per second.
pub const SPEED_SCALE: i64 = 1_000_000;

/// Largest one-axis displacement a single frame can produce.
pub const DISP_LIMIT: i64 = 1_200_000_000;

/// Largest one-axis nudge of the push-back loop.
pub const NUDGE_LIMIT: i64 = 600_000;

/// Largest drift the push-back loop can accumulate on one axis for one
/// obstacle: at most `2 * SIZE_LIMIT` iterations of at most `NUDGE_LIMIT`.
pub const PUSH_DRIFT_LIMIT: i64 = 1_200_000_000_000_000;

/// Coordinate bound under which the push-back loop is free of overflow.
pub const PUSH_POS_LIMIT: i64 = 3_000_000_000_000_000_000;

/// Most obstacles one `advance` call accepts.
pub const MAX_OBSTACLES: usize = 1_000;

/// Worst-case one-axis movement that handling a single obstacle can add.
pub const OBSTACLE_SLACK: i64 = PUSH_DRIFT_LIMIT + DISP_LIMIT;

/// One axis of the tentative displacement: `speed * dirc * dt`, scaled
/// back into stored ticks, rounding toward zero.
pub open spec fn disp(speed: int, dirc: int, dt: int) -> int {
    tdiv(speed * dirc * dt, SPEED_SCALE as int)
}

/// One axis of the push-back nudge: the correction moves at `FIX_STEP`
/// ticks per second against the direction of travel.
pub open spec fn nudge(dirc: int, dt: int) -> int {
    tdiv((FIX_STEP as int) * dirc * dt, SPEED_SCALE as int)
}

/// Whether a rectangle of size `w`x`h` placed at `(x, y)` strictly
/// overlaps the obstacle `o`.
pub open spec fn overlap_at(x: int, y: int, w: int, h: int, o: Rect) -> bool {
    x < o.x + o.w && o.x < x + w && y < o.y + o.h && o.y < y + h
}

/// Width of the intersection of a rectangle at `x` with obstacle `o`.
pub open spec fn inter_w_at(x: int, w: int, o: Rect) -> int {
    (if x + w <= o.x + o.w {
        x + w
    } else {
        o.x + o.w
    }) - (if x >= o.x {
        x
    } else {
        o.x as int
    })
}

/// Height of the intersection of a rectangle at `y` with obstacle `o`.
pub open spec fn inter_h_at(y: int, h: int, o: Rect) -> int {
    (if y + h <= o.y + o.h {
        y + h
    } else {
        o.y + o.h
    }) - (if y >= o.y {
        y
    } else {
        o.y as int
    })
}

/// How many nudges of `(dx, dy)` the push-back loop takes until the
/// rectangle no longer overlaps the obstacle.
pub open spec fn push_steps(x: int, y: int, w: int, h: int, o: Rect, dx: int, dy: int) -> nat
    decreases
            clip0(
                if dx < 0 {
                    x + w - o.x
                } else {
                    o.x + o.w - x
                },
            ),
        when dx != 0
{
    if !overlap_at(x, y, w, h, o) {
        0
    } else {
        1 + push_steps(x + dx, y + dy, w, h, o, dx, dy)
    }
}

/// Width of the last intersection the push-back loop observes, or zero
/// when the rectangle never overlapped the obstacle.
pub open spec fn last_inter_w(x: int, y: int, w: int, h: int, o: Rect, dx: int, dy: int) -> int {
    let s = push_steps(x, y, w, h, o, dx, dy) as int;
    if s == 0 {
        0
    } else {
        inter_w_at(x + (s - 1) * dx, w, o)
    }
}

/// Height of the last intersection the push-back loop observes.
pub open spec fn last_inter_h(x: int, y: int, w: int, h: int, o: Rect, dx: int, dy: int) -> int {
    let s = push_steps(x, y, w, h, o, dx, dy) as int;
    if s == 0 {
        0
    } else {
        inter_h_at(y + (s - 1) * dy, h, o)
    }
}

/// The push-back always terminates clear of the obstacle: after
/// `push_steps` nudges the rectangle no longer overlaps it, whatever the
/// starting overlap depth.
pub proof fn lemma_push_clears(x: int, y: int, w: int, h: int, o: Rect, dx: int, dy: int)
    requires
        dx != 0,
    ensures
        !overlap_at(
            x + push_steps(x, y, w, h, o, dx, dy) * dx,
            y + push_steps(x, y, w, h, o, dx, dy) * dy,
            w,
            h,
            o,
        ),
    decreases
            clip0(
                if dx < 0 {
                    x + w - o.x
                } else {
                    o.x + o.w - x
                },
            ),
{
    let s = push_steps(x, y, w, h, o, dx, dy) as int;
    if !overlap_at(x, y, w, h, o) {
        assert(s == 0);
    } else {
        lemma_push_clears(x + dx, y + dy, w, h, o, dx, dy);
        let s1 = push_steps(x + dx, y + dy, w, h, o, dx, dy) as int;
        assert(s == s1 + 1);
        assert(x + dx + s1 * dx == x + s * dx && y + dy + s1 * dy == y + s * dy)
            by (nonlinear_arith)
            requires
                s == s1 + 1,
        {
        }
    }
}

/// Pushes `r` back by steps of `(dx, dy)` until it no longer overlaps
/// `o`, and returns the width and height of the last intersection seen
/// (zero when there never was an overlap).
pub fn push_out(r: &mut Rect, o: &Rect, dx: i64, dy: i64) -> (dims: (i64, i64))
    requires
        old(r).within(PUSH_POS_LIMIT as int),
        o.wf(),
        dx != 0,
        dy != 0,
        iabs(dx as int) <= NUDGE_LIMIT,
        iabs(dy as int) <= NUDGE_LIMIT,
    ensures
        ({
            let s = push_steps(
                old(r).x as int,
                old(r).y as int,
                old(r).w as int,
                old(r).h as int,
                *o,
                dx as int,
                dy as int,
            ) as int;
            final(r).x == old(r).x + s * dx && final(r).y == old(r).y + s * dy
        }),
        final(r).w == old(r).w,
        final(r).h == old(r).h,
        !final(r).spec_overlaps(*o),
        dims.0 == last_inter_w(
            old(r).x as int,
            old(r).y as int,
            old(r).w as int,
            old(r).h as int,
            *o,
            dx as int,
            dy as int,
        ),
        dims.1 == last_inter_h(
            old(r).x as int,
            old(r).y as int,
            old(r).w as int,
            old(r).h as int,
            *o,
            dx as int,
            dy as int,
        ),
        iabs(final(r).x - old(r).x) <= PUSH_DRIFT_LIMIT,
        iabs(final(r).y - old(r).y) <= PUSH_DRIFT_LIMIT,
{
    let ghost x0 = r.x as int;
    let ghost y0 = r.y as int;
    let ghost w0 = r.w as int;
    let ghost h0 = r.h as int;
    let ghost ob = *o;
    let ghost s_total = push_steps(x0, y0, w0, h0, ob, dx as int, dy as int);
    let ghost mut k: int = 0;
    let mut lw: i64 = 0;
    let mut lh: i64 = 0;
    while r.overlaps(o)
        invariant
            o == &ob,
            ob.wf(),
            dx != 0,
            dy != 0,
            iabs(dx as int) <= NUDGE_LIMIT,
            iabs(dy as int) <= NUDGE_LIMIT,
            r.w == w0,
            r.h == h0,
            0 <= w0 <= SIZE_LIMIT,
            0 <= h0 <= SIZE_LIMIT,
            -(PUSH_POS_LIMIT as int) <= x0 <= PUSH_POS_LIMIT as int,
            -(PUSH_POS_LIMIT as int) <= y0 <= PUSH_POS_LIMIT as int,
            k >= 0,
            r.x == x0 + k * (dx as int),
            r.y == y0 + k * (dy as int),
            k + push_steps(r.x as int, r.y as int, w0, h0, ob, dx as int, dy as int) == s_total,
            k == 0 || k + pmeasure(r.x as int, w0, ob, dx as int) <= w0 + ob.w,
            iabs(r.x - x0) <= k * (NUDGE_LIMIT as int),
            iabs(r.y - y0) <= k * (NUDGE_LIMIT as int),
            k == 0 ==> lw == 0 && lh == 0,
            k > 0 ==> lw == inter_w_at(x0 + (k - 1) * (dx as int), w0, ob) && lh == inter_h_at(
                y0 + (k - 1) * (dy as int),
                h0,
                ob,
            ),
        decreases push_steps(r.x as int, r.y as int, w0, h0, ob, dx as int, dy as int),
    {
        let left = if r.x >= o.x {
            r.x
        } else {
            o.x
        };
        let right = if r.x + r.w <= o.x + o.w {
            r.x + r.w
        } else {
            o.x + o.w
        };
        let top = if r.y >= o.y {
            r.y
        } else {
            o.y
        };
        let bottom = if r.y + r.h <= o.y + o.h {
            r.y + r.h
        } else {
            o.y + o.h
        };
        lw = right - left;
        lh = bottom - top;
        proof {
            assert((k + 1) * (dx as int) == k * (dx as int) + dx && (k + 1) * (dy as int) == k * (
            dy as int) + dy) by (nonlinear_arith);
            assert((k + 1) * (NUDGE_LIMIT as int) == k * (NUDGE_LIMIT as int) + NUDGE_LIMIT)
                by (nonlinear_arith);
        }
        r.x = r.x + dx;
        r.y = r.y + dy;
        proof {
            k = k + 1;
        }
    }
    (lw, lh)
}

/// The clipped distance, along the push-back axis, from the rectangle's
/// trailing edge to the far side of the obstacle: the measure that bounds
/// the push-back loop.
pub open spec fn pmeasure(x: int, w: int, o: Rect, dx: int) -> int {
    clip0(
        if dx < 0 {
            x + w - o.x
        } else {
            o.x + o.w - x
        },
    )
}

/// Every position the push-back loop passes before it finishes still
/// overlaps the obstacle: the loop stops at the first clear position.
pub proof fn lemma_push_overlap_prefix(
    x: int,
    y: int,
    w: int,
    h: int,
    o: Rect,
    dx: int,
    dy: int,
    j: int,
)
    requires
        dx != 0,
        0 <= j < push_steps(x, y, w, h, o, dx, dy),
    ensures
        overlap_at(x + j * dx, y + j * dy, w, h, o),
    decreases j,
{
    if j == 0 {
    } else {
        lemma_push_overlap_prefix(x + dx, y + dy, w, h, o, dx, dy, j - 1);
        assert(x + dx + (j - 1) * dx == x + j * dx && y + dy + (j - 1) * dy == y + j * dy)
            by (nonlinear_arith);
    }
}

/// Truncating division keeps the sign of the dividend.
pub proof fn lemma_tdiv_sign(a: int, b: int)
    requires
        b >= 1,
    ensures
        a >= 0 ==> tdiv(a, b) >= 0,
        a <= 0 ==> tdiv(a, b) <= 0,
{
    if a >= 0 {
        lemma_div_pos_is_pos(a, b);
    } else {
        lemma_div_pos_is_pos(-a, b);
    }
}

/// The no-tunneling law of the integrator: advancing diagonally against a
/// single obstacle that sits well inside the world never leaves the
/// rectangle overlapping it, whatever the starting overlap depth — the
/// push-back runs to a clear position, and the slide that then undoes one
/// axis of the displacement only retreats against the direction of
/// travel.
pub proof fn lemma_advance_avoids_lone_obstacle(r: Rect, speed: int, dir: Vec2, dt: int, o: Rect)
    requires
        r.wf(),
        0 <= speed <= SPEED_LIMIT as int,
        0 <= dt <= DT_LIMIT as int,
        iabs(dir.x as int) <= DIR_LIMIT as int,
        iabs(dir.y as int) <= DIR_LIMIT as int,
        dir.x != 0,
        dir.y != 0,
        nudge(dir.x as int, dt) != 0,
        nudge(dir.y as int, dt) != 0,
        0 <= o.w <= SIZE_LIMIT,
        0 <= o.h <= SIZE_LIMIT,
        iabs(o.x as int) <= (POS_LIMIT as int) - 2 * (SIZE_LIMIT as int),
        iabs(o.y as int) <= (POS_LIMIT as int) - 2 * (SIZE_LIMIT as int),
    ensures
        ({
            let p = advance_pos(r, speed, dir, dt, seq![o], false);
            !overlap_at(p.0, p.1, r.w as int, r.h as int, o)
        }),
{
    let w = r.w as int;
    let h = r.h as int;
    let mx = disp(speed, dir.x as int, dt);
    let my = disp(speed, dir.y as int, dt);
    let nx = nudge(dir.x as int, dt);
    let ny = nudge(dir.y as int, dt);
    let xm = r.x + mx;
    let ym = r.y + my;
    assert(dir.x > 0 ==> speed * (dir.x as int) * dt >= 0 && (FIX_STEP as int) * (dir.x as int)
        * dt >= 0) by (nonlinear_arith)
        requires
            speed >= 0,
            dt >= 0,
    ;
    assert(dir.x < 0 ==> speed * (dir.x as int) * dt <= 0 && (FIX_STEP as int) * (dir.x as int)
        * dt <= 0) by (nonlinear_arith)
        requires
            speed >= 0,
            dt >= 0,
            FIX_STEP == 5_000i64,
    ;
    assert(dir.y > 0 ==> speed * (dir.y as int) * dt >= 0 && (FIX_STEP as int) * (dir.y as int)
        * dt >= 0) by (nonlinear_arith)
        requires
            speed >= 0,
            dt >= 0,
    ;
    assert(dir.y < 0 ==> speed * (dir.y as int) * dt <= 0 && (FIX_STEP as int) * (dir.y as int)
        * dt <= 0) by (nonlinear_arith)
        requires
            speed >= 0,
            dt >= 0,
            FIX_STEP == 5_000i64,
    ;
    lemma_tdiv_sign(speed * (dir.x as int) * dt, SPEED_SCALE as int);
    lemma_tdiv_sign(speed * (dir.y as int) * dt, SPEED_SCALE as int);
    lemma_tdiv_sign((FIX_STEP as int) * (dir.x as int) * dt, SPEED_SCALE as int);
    lemma_tdiv_sign((FIX_STEP as int) * (dir.y as int) * dt, SPEED_SCALE as int);
    // The direction of travel fixes the signs: the displacement moves
    // with `dir`, the push-back nudge against it.
    assert(dir.x > 0 ==> mx >= 0 && nx > 0);
    assert(dir.x < 0 ==> mx <= 0 && nx < 0);
    assert(dir.y > 0 ==> my >= 0 && ny > 0);
    assert(dir.y < 0 ==> my <= 0 && ny < 0);
    let obs = seq![o];
    assert(obs.len() == 1 && obs[0] == o);
    let s = push_steps(xm, ym, w, h, o, -nx, -ny) as int;
    let x1 = xm + s * (-nx);
    let y1 = ym + s * (-ny);
    lemma_push_clears(xm, ym, w, h, o, -nx, -ny);
    let lw = last_inter_w(xm, ym, w, h, o, -nx, -ny);
    let lh = last_inter_h(xm, ym, w, h, o, -nx, -ny);
    let x2 = if lw < lh {
        x1 - mx
    } else {
        x1
    };
    let y2 = if lw > lh {
        y1 - my
    } else {
        y1
    };
    let c = corrected(xm, ym, w, h, obs, 0, -nx, -ny, mx, my);
    assert(c == (x2, y2)) by {
        reveal_with_fuel(corrected, 2);
    }
    assert(x2 == x1 || x2 == x1 - mx);
    assert(y2 == y1 || y2 == y1 - my);
    // Per axis: the clear position never sits past the obstacle on the
    // side the travel came from, so undoing the displacement (a retreat
    // against the travel) keeps whichever separation the push-back won.
    if s > 0 {
        lemma_push_overlap_prefix(xm, ym, w, h, o, -nx, -ny, s - 1);
        assert(xm + s * (-nx) == (xm + (s - 1) * (-nx)) + (-nx) && ym + s * (-ny) == (ym + (s - 1)
            * (-ny)) + (-ny)) by (nonlinear_arith);
        assert(dir.x > 0 ==> x1 < o.x + o.w);
        assert(dir.x < 0 ==> o.x < x1 + w);
        assert(dir.y > 0 ==> y1 < o.y + o.h);
        assert(dir.y < 0 ==> o.y < y1 + h);
        assert(o.x >= x1 + w || x1 >= o.x + o.w || o.y >= y1 + h || y1 >= o.y + o.h);
        assert(o.x >= x1 + w ==> o.x >= x2 + w);
        assert(x1 >= o.x + o.w ==> x2 >= o.x + o.w);
        assert(o.y >= y1 + h ==> o.y >= y2 + h);
        assert(y1 >= o.y + o.h ==> y2 >= o.y + o.h);
        assert(!overlap_at(x2, y2, w, h, o));
    } else {
        assert(!overlap_at(xm, ym, w, h, o));
        assert(s * (-nx) == 0 && s * (-ny) == 0) by (nonlinear_arith)
            requires
                s == 0,
        ;
        assert(x2 == xm && y2 == ym);
    }
    // Clamping into the stored range cannot push the rectangle back onto
    // an obstacle that sits two sizes clear of the boundary.
    let px = clamp_spec(x2, POS_LIMIT as int);
    let py = clamp_spec(y2, POS_LIMIT as int);
    if x2 > POS_LIMIT as int {
        assert(px >= o.x + o.w);
    } else if x2 < -(POS_LIMIT as int) {
        assert(px + w <= o.x);
    } else if y2 > POS_LIMIT as int {
        assert(py >= o.y + o.h);
    } else if y2 < -(POS_LIMIT as int) {
        assert(py + h <= o.y);
    } else {
        assert(px == x2 && py == y2);
    }
    assert(!overlap_at(px, py, w, h, o));
}

/// Truncating division shrinks magnitudes exactly: `|tdiv(a, b)| == |a| / b`.
pub proof fn lemma_tdiv_mag(a: int, b: int)
    requires
        b >= 1,
    ensures
        iabs(tdiv(a, b)) == iabs(a) / b,
{
    if a >= 0 {
        lemma_div_pos_is_pos(a, b);
    } else {
        lemma_div_pos_is_pos(-a, b);
    }
}

/// Computes `a * b * c / SPEED_SCALE` (rounding toward zero): the stored
/// displacement of one axis for speed `a`, direction component `b` and
/// elapsed milliseconds `c`.
pub fn scale_motion(a: i64, b: i64, c: i64) -> (r: i64)
    requires
        0 <= a <= SPEED_LIMIT,
        iabs(b as int) <= DIR_LIMIT,
        0 <= c <= DT_LIMIT,
    ensures
        r == tdiv((a as int) * (b as int) * (c as int), SPEED_SCALE as int),
        iabs(r as int) <= DISP_LIMIT,
        a <= FIX_STEP ==> iabs(r as int) <= NUDGE_LIMIT,
{
    assert(-20_000_000_000 <= (a as int) * (b as int) <= 20_000_000_000) by (nonlinear_arith)
        requires
            0 <= a <= 10_000_000,
            -2_000 <= b <= 2_000,
    {
    }
    assert(a <= FIX_STEP ==> -10_000_000 <= (a as int) * (b as int) <= 10_000_000)
        by (nonlinear_arith)
        requires
            0 <= a <= 10_000_000,
            -2_000 <= b <= 2_000,
            FIX_STEP == 5_000i64,
    {
    }
    let ab = a * b;
    assert(-1_200_000_000_000_000 <= (ab as int) * (c as int) <= 1_200_000_000_000_000)
        by (nonlinear_arith)
        requires
            -20_000_000_000 <= ab <= 20_000_000_000,
            0 <= c <= 60_000,
    {
    }
    assert(a <= FIX_STEP ==> -600_000_000_000 <= (ab as int) * (c as int) <= 600_000_000_000)
        by (nonlinear_arith)
        requires
            a <= FIX_STEP ==> -10_000_000 <= ab <= 10_000_000,
            0 <= c <= 60_000,
            FIX_STEP == 5_000i64,
    {
    }
    let p = ab * c;
    let r = p / SPEED_SCALE;
    proof {
        lemma_tdiv_mag(p as int, SPEED_SCALE as int);
        lemma_div_is_ordered(iabs(p as int), 1_200_000_000_000_000, SPEED_SCALE as int);
        assert(1_200_000_000_000_000int / 1_000_000int == 1_200_000_000);
        if a <= FIX_STEP {
            lemma_div_is_ordered(iabs(p as int), 600_000_000_000, SPEED_SCALE as int);
            assert(600_000_000_000int / 1_000_000int == 600_000);
        }
    }
    r
}

/// The corrected position after handling the obstacles from index `i` on:
/// for each obstacle in turn, the push-back by `(dx, dy)` runs to
/// completion, then the axis dominance of the last observed intersection
/// decides which axis of the frame displacement `(mx, my)` is undone.
pub open spec fn corrected(
    x: int,
    y: int,
    w: int,
    h: int,
    obs: Seq<Rect>,
    i: int,
    dx: int,
    dy: int,
    mx: int,
    my: int,
) -> (int, int)
    decreases obs.len() - i,
{
    if i < 0 || i >= obs.len() {
        (x, y)
    } else {
        let o = obs[i];
        let s = push_steps(x, y, w, h, o, dx, dy) as int;
        let x1 = x + s * dx;
        let y1 = y + s * dy;
        let lw = last_inter_w(x, y, w, h, o, dx, dy);
        let lh = last_inter_h(x, y, w, h, o, dx, dy);
        let x2 = if lw < lh {
            x1 - mx
        } else {
            x1
        };
        let y2 = if lw > lh {
            y1 - my
        } else {
            y1
        };
        corrected(x2, y2, w, h, obs, i + 1, dx, dy, mx, my)
    }
}

/// Where `advance` leaves the rectangle: the tentative move by the frame
/// displacement, then — only for diagonal movement with a nonzero
/// push-back nudge, and not while a bounce suppresses pathing — the
/// obstacle correction, and finally the clamp into the stored coordinate
/// range.
pub open spec fn advance_pos(
    r: Rect,
    speed: int,
    dir: Vec2,
    dt: int,
    obs: Seq<Rect>,
    suppress: bool,
) -> (int, int) {
    let mx = disp(speed, dir.x as int, dt);
    let my = disp(speed, dir.y as int, dt);
    let x = r.x + mx;
    let y = r.y + my;
    let nx = nudge(dir.x as int, dt);
    let ny = nudge(dir.y as int, dt);
    if suppress || dir.x == 0 || dir.y == 0 || nx == 0 || ny == 0 {
        (clamp_spec(x, POS_LIMIT as int), clamp_spec(y, POS_LIMIT as int))
    } else {
        let c = corrected(x, y, r.w as int, r.h as int, obs, 0, -nx, -ny, mx, my);
        (clamp_spec(c.0, POS_LIMIT as int), clamp_spec(c.1, POS_LIMIT as int))
    }
}

/// Advances `rect` by `speed * dir * dt`, then resolves penetration
/// against the obstacles (diagonal movement only; skipped while a bounce
/// is in progress) and re-projects the blocked axis of the displacement.
/// A zero `dt` leaves the rectangle unchanged.
pub fn advance(
    rect: &mut Rect,
    speed: i64,
    dir: Vec2,
    dt: i64,
    obstacles: &Vec<Rect>,
    suppress: bool,
)
    requires
        old(rect).wf(),
        0 <= speed <= SPEED_LIMIT,
        iabs(dir.x as int) <= DIR_LIMIT,
        iabs(dir.y as int) <= DIR_LIMIT,
        0 <= dt <= DT_LIMIT,
        forall|i: int| 0 <= i < obstacles@.len() ==> obstacles@[i].wf(),
        obstacles@.len() <= MAX_OBSTACLES,
    ensures
        ({
            let p = advance_pos(
                *old(rect),
                speed as int,
                dir,
                dt as int,
                obstacles@,
                suppress,
            );
            final(rect).x == p.0 && final(rect).y == p.1
        }),
        final(rect).w == old(rect).w,
        final(rect).h == old(rect).h,
        final(rect).wf(),
        dt == 0 ==> *final(rect) == *old(rect),
{
    let mx = scale_motion(speed, dir.x, dt);
    let my = scale_motion(speed, dir.y, dt);
    let nx = scale_motion(FIX_STEP, dir.x, dt);
    let ny = scale_motion(FIX_STEP, dir.y, dt);
    proof {
        if dt == 0 {
            assert((speed as int) * (dir.x as int) * (dt as int) == 0 && (speed as int) * (
            dir.y as int) * (dt as int) == 0 && (FIX_STEP as int) * (dir.x as int) * (dt as int)
                == 0 && (FIX_STEP as int) * (dir.y as int) * (dt as int) == 0)
                by (nonlinear_arith)
                requires
                    dt == 0i64,
            ;
            lemma_div_of0(SPEED_SCALE as int);
            assert(mx == 0 && my == 0 && nx == 0 && ny == 0);
        }
    }
    rect.x = rect.x + mx;
    rect.y = rect.y + my;
    if !(suppress || dir.x == 0 || dir.y == 0 || nx == 0 || ny == 0) {
        let ghost xm = rect.x as int;
        let ghost ym = rect.y as int;
        let ghost w0 = rect.w as int;
        let ghost h0 = rect.h as int;
        let ghost target = corrected(
            xm,
            ym,
            w0,
            h0,
            obstacles@,
            0,
            -nx as int,
            -ny as int,
            mx as int,
            my as int,
        );
        let n = obstacles.len();
        let mut i: usize = 0;
        while i < n
            invariant
                i <= n,
                n == obstacles@.len(),
                n <= MAX_OBSTACLES,
                forall|j: int| 0 <= j < obstacles@.len() ==> obstacles@[j].wf(),
                rect.w == w0,
                rect.h == h0,
                0 <= w0 <= SIZE_LIMIT,
                0 <= h0 <= SIZE_LIMIT,
                nx != 0,
                ny != 0,
                iabs(nx as int) <= NUDGE_LIMIT,
                iabs(ny as int) <= NUDGE_LIMIT,
                iabs(mx as int) <= DISP_LIMIT,
                iabs(my as int) <= DISP_LIMIT,
                iabs(rect.x as int) <= (POS_LIMIT as int) + DISP_LIMIT + (i as int) * (
                OBSTACLE_SLACK as int),
                iabs(rect.y as int) <= (POS_LIMIT as int) + DISP_LIMIT + (i as int) * (
                OBSTACLE_SLACK as int),
                corrected(
                    rect.x as int,
                    rect.y as int,
                    w0,
                    h0,
                    obstacles@,
                    i as int,
                    -nx as int,
                    -ny as int,
                    mx as int,
                    my as int,
                ) == target,
            decreases n - i,
        {
            proof {
                assert((i as int + 1) * (OBSTACLE_SLACK as int) == (i as int) * (
                OBSTACLE_SLACK as int) + OBSTACLE_SLACK) by (nonlinear_arith);
                assert((i as int) * (OBSTACLE_SLACK as int) <= 1000 * (OBSTACLE_SLACK as int))
                    by (nonlinear_arith)
                    requires
                        0 <= i as int <= 1000,
                {
                }
            }
            let o = obstacles[i];
            let dims = push_out(rect, &o, -nx, -ny);
            if dims.0 == dims.1 {
            } else if dims.0 > dims.1 {
                rect.y = rect.y - my;
            } else {
                rect.x = rect.x - mx;
            }
            i = i + 1;
        }
    }
    rect.x = crate::nums::clamp_i64(rect.x, POS_LIMIT);
    rect.y = crate::nums::clamp_i64(rect.y, POS_LIMIT);
}

} // verus!

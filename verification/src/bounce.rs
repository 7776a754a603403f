//! Bounce playback and bounce destinations.
//!
//! A bounce is a short scripted displacement: while a progress fraction is
//! set, each frame pulls the entity from its current position toward the
//! bounce destination by `lerp(current, dest, min(progress, 1))` and then
//! advances the progress by a fixed per-frame step (a frame constant, not
//! scaled by elapsed time — the easing is frame-count based). Once the
//! progress exceeds one, the position has reached the destination exactly
//! and the progress clears; it is never re-set without a fresh collision.

use vstd::prelude::*;

use crate::geom::{clamp_point, lerp, lerp_val, Rect, Vec2, POS_LIMIT, SIZE_LIMIT, UNIT};
use crate::nums::{clamp_spec, iabs, tdiv};
use crate::steer::{norm_or_zero, unit_x, unit_y};
use vstd::arithmetic::div_mod::{
    lemma_div_is_ordered,
    lemma_div_multiples_vanish,
    lemma_div_pos_is_pos,
};

verus! {

/// Per-frame increase of the bounce progress, in `UNIT` thousandths.
pub const PROGRESS_STEP: i64 = 50;

/// Upper bound a stored bounce progress can reach before it clears.
pub const PROGRESS_LIMIT: i64 = 2_000;

/// The interpolation fraction a given progress plays with: the progress
/// clamped to one full `UNIT`.
pub open spec fn play_t(p: int) -> int {
    if p > UNIT {
        UNIT as int
    } else {
        p
    }
}

/// One axis of one playback frame: the position after pulling `x` toward
/// `dest` by the clamped progress fraction.
pub open spec fn played(x: int, dest: int, p: int) -> int {
    lerp_val(x, dest, play_t(p))
}

/// Interpolating toward `dest` with a fraction in `[0, UNIT]` never moves
/// past `dest`, never increases the distance to it, and reaches it exactly
/// at a full fraction.
pub proof fn lemma_lerp_approach(x: int, dest: int, t: int)
    requires
        0 <= t <= UNIT,
    ensures
        x <= dest ==> x <= lerp_val(x, dest, t) <= dest,
        dest <= x ==> dest <= lerp_val(x, dest, t) <= x,
        iabs(dest - lerp_val(x, dest, t)) <= iabs(dest - x),
        t == UNIT ==> lerp_val(x, dest, t) == dest,
{
    let d = dest - x;
    if d >= 0 {
        assert(0 <= d * t <= d * (UNIT as int)) by (nonlinear_arith)
            requires
                d >= 0,
                0 <= t <= UNIT,
        {
        }
        lemma_div_pos_is_pos(d * t, UNIT as int);
        lemma_div_is_ordered(d * t, d * (UNIT as int), UNIT as int);
        lemma_div_multiples_vanish(d, UNIT as int);
    } else {
        assert(0 <= (-d) * t <= (-d) * (UNIT as int)) by (nonlinear_arith)
            requires
                d < 0,
                0 <= t <= UNIT,
        {
        }
        assert(-(d * t) == (-d) * t && -(d * (UNIT as int)) == (-d) * (UNIT as int))
            by (nonlinear_arith);
        lemma_div_pos_is_pos((-d) * t, UNIT as int);
        lemma_div_is_ordered((-d) * t, (-d) * (UNIT as int), UNIT as int);
        lemma_div_multiples_vanish(-d, UNIT as int);
    }
}

/// One playback frame for one entity: while a progress is set, pull the
/// rectangle toward `dest` by the clamped progress fraction, then advance
/// the progress by `PROGRESS_STEP`, clearing it once it has passed a full
/// `UNIT`. Without an active progress nothing changes.
pub fn bounce_step(rect: &mut Rect, dest: Vec2, progress: &mut Option<i64>)
    requires
        old(rect).wf(),
        dest.within(POS_LIMIT as int),
        *old(progress) is Some ==> 0 <= (*old(progress))->0 <= PROGRESS_LIMIT,
    ensures
        *old(progress) is None ==> *final(rect) == *old(rect) && *final(progress) == *old(
            progress,
        ),
        (*old(progress)) matches Some(p) ==> {
            &&& final(rect).x == played(old(rect).x as int, dest.x as int, p as int)
            &&& final(rect).y == played(old(rect).y as int, dest.y as int, p as int)
            &&& *final(progress) == (if p > UNIT {
                None
            } else {
                Some((p + PROGRESS_STEP) as i64)
            })
            &&& iabs(dest.x - final(rect).x) <= iabs(dest.x - old(rect).x)
            &&& iabs(dest.y - final(rect).y) <= iabs(dest.y - old(rect).y)
            &&& (p >= UNIT ==> final(rect).x == dest.x && final(rect).y == dest.y)
        },
        final(rect).w == old(rect).w,
        final(rect).h == old(rect).h,
        final(rect).wf(),
        *final(progress) is Some ==> 0 <= (*final(progress))->0 <= PROGRESS_LIMIT,
{
    match *progress {
        None => {
        },
        Some(p) => {
            let t = if p > UNIT {
                UNIT
            } else {
                p
            };
            proof {
                lemma_lerp_approach(rect.x as int, dest.x as int, t as int);
                lemma_lerp_approach(rect.y as int, dest.y as int, t as int);
            }
            let target = lerp(rect.point(), dest, t);
            rect.x = target.x;
            rect.y = target.y;
            if p > UNIT {
                *progress = None;
            } else {
                *progress = Some(p + PROGRESS_STEP);
            }
        },
    }
}

/// The position after `n` playback frames that start with progress `p`:
/// once the progress passes a full `UNIT` the frame that observes it is
/// the last to move the entity, and later frames change nothing.
pub open spec fn playback_pos(x: int, dest: int, p: int, n: nat) -> int
    decreases n,
{
    if n == 0 {
        x
    } else if p > UNIT {
        played(x, dest, p)
    } else {
        playback_pos(played(x, dest, p), dest, p + PROGRESS_STEP, (n - 1) as nat)
    }
}

/// Whether `n` playback frames starting with progress `p` suffice to clear
/// the bounce.
pub open spec fn playback_done(p: int, n: nat) -> bool
    decreases n,
{
    if n == 0 {
        false
    } else if p > UNIT {
        true
    } else {
        playback_done(p + PROGRESS_STEP, (n - 1) as nat)
    }
}

/// Frames until a bounce at progress `p` clears: one frame if the
/// progress is already past a full `UNIT`, else the frames to walk the
/// progress up to `UNIT` plus the final clearing frame.
pub open spec fn frames_to_finish(p: int) -> int {
    if p > UNIT {
        1
    } else {
        ((UNIT as int) - p) / (PROGRESS_STEP as int) + 2
    }
}

/// Bounce playback converges: starting from any non-negative progress,
/// after `frames_to_finish` frames (at most 22 from a fresh bounce) the
/// entity stands exactly on the bounce destination and the progress has
/// cleared — and by `bounce_step`'s contract the distance to the
/// destination never increases along the way and a cleared progress is
/// never re-set by playback alone.
pub proof fn lemma_playback_converges(x: int, dest: int, p: int, n: nat)
    requires
        0 <= p,
        n >= frames_to_finish(p),
    ensures
        playback_done(p, n),
        playback_pos(x, dest, p, n) == dest,
    decreases n,
{
    if p > UNIT {
        lemma_lerp_approach(x, dest, UNIT as int);
    } else {
        assert(frames_to_finish(p) >= 2) by {
            lemma_div_pos_is_pos((UNIT as int) - p, PROGRESS_STEP as int);
        }
        assert(frames_to_finish(p + PROGRESS_STEP) == frames_to_finish(p) - 1) by {
            if p + PROGRESS_STEP <= UNIT {
                assert((UNIT - p) / (PROGRESS_STEP as int) == ((UNIT - p - PROGRESS_STEP) / (
                PROGRESS_STEP as int)) + 1) by (nonlinear_arith)
                    requires
                        UNIT == 1000i64,
                        PROGRESS_STEP == 50i64,
                        0 <= p,
                        p + PROGRESS_STEP <= UNIT,
                {
                }
            } else {
                assert(0 <= UNIT - p < PROGRESS_STEP);
                assert((UNIT - p) / (PROGRESS_STEP as int) == 0) by (nonlinear_arith)
                    requires
                        0 <= (UNIT as int) - p < (PROGRESS_STEP as int),
                        PROGRESS_STEP == 50i64,
                {
                }
            }
        }
        lemma_playback_converges(played(x, dest, p), dest, p + PROGRESS_STEP, (n - 1) as nat);
    }
}

/// One axis of the bounce offset for a collision of rectangles `a` and
/// `c`: the unit direction from `c`'s center toward `a`'s center, scaled
/// by the kind-specific bounce distance.
pub open spec fn bounce_off_x(a: Rect, c: Rect, amount: int) -> int {
    tdiv(unit_x(a.cx() - c.cx(), a.cy() - c.cy()) * amount, UNIT as int)
}

/// The other axis of the bounce offset.
pub open spec fn bounce_off_y(a: Rect, c: Rect, amount: int) -> int {
    tdiv(unit_y(a.cx() - c.cx(), a.cy() - c.cy()) * amount, UNIT as int)
}

/// The two bounce destinations of an `a`-versus-`c` collision: `a` is
/// knocked from its own position along the center-to-center direction,
/// `c` symmetrically against it, both by the same kind-specific distance.
pub fn bounce_dests(a: &Rect, c: &Rect, amount: i64) -> (d: (Vec2, Vec2))
    requires
        a.wf(),
        c.wf(),
        0 <= amount <= SIZE_LIMIT,
    ensures
        d.0.x == clamp_spec(a.x + bounce_off_x(*a, *c, amount as int), POS_LIMIT as int),
        d.0.y == clamp_spec(a.y + bounce_off_y(*a, *c, amount as int), POS_LIMIT as int),
        d.1.x == clamp_spec(c.x - bounce_off_x(*a, *c, amount as int), POS_LIMIT as int),
        d.1.y == clamp_spec(c.y - bounce_off_y(*a, *c, amount as int), POS_LIMIT as int),
        d.0.within(POS_LIMIT as int),
        d.1.within(POS_LIMIT as int),
{
    let ac = a.center();
    let cc = c.center();
    let u = norm_or_zero(Vec2 { x: ac.x - cc.x, y: ac.y - cc.y });
    assert(-1_000_000_000_000 <= (u.x as int) * (amount as int) <= 1_000_000_000_000 && -1_000_000_000_000
        <= (u.y as int) * (amount as int) <= 1_000_000_000_000) by (nonlinear_arith)
        requires
            -1_000 <= u.x <= 1_000,
            -1_000 <= u.y <= 1_000,
            0 <= amount <= 1_000_000_000,
    {
    }
    let ox = u.x * amount / UNIT;
    let oy = u.y * amount / UNIT;
    proof {
        crate::pathfind::lemma_tdiv_mag((u.x as int) * (amount as int), UNIT as int);
        crate::pathfind::lemma_tdiv_mag((u.y as int) * (amount as int), UNIT as int);
        lemma_div_is_ordered(iabs((u.x as int) * (amount as int)), 1_000_000_000_000, UNIT as int);
        lemma_div_is_ordered(iabs((u.y as int) * (amount as int)), 1_000_000_000_000, UNIT as int);
        assert(1_000_000_000_000int / 1_000int == 1_000_000_000);
    }
    let ad = clamp_point(a.x + ox, a.y + oy);
    let cd = clamp_point(c.x - ox, c.y - oy);
    (ad, cd)
}

} // verus!

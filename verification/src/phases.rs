//! The per-frame phases of the simulation and the `step` driver that runs
//! them in their fixed order:
//! input intent (handed in) → actor movement and power-up/stun
//! bookkeeping → bounce playback → goal movement → win/loss check →
//! hostile movement and proximity effects → actor–hostile collision
//! resolution → obstacle proximity speed multipliers.
//!
//! Later phases observe the positions written by earlier phases within
//! the same frame; each phase's effect is pinned field by field by its
//! relation spec function.

use vstd::prelude::*;

use crate::bounce::{bounce_dests, bounce_off_x, bounce_off_y, bounce_step, played, PROGRESS_STEP};
use crate::geom::{Rect, Vec2, POS_LIMIT, UNIT};
use crate::kinds::{
    chaser_bounce,
    chaser_proximity,
    chaser_stun,
    obstacle_proximity,
    powerup_duration,
    ChaserKind,
    CollisionRule,
    PowerUpKind,
    ACTOR_SPEED,
    BOOSTED_SPEED,
    CHASER_SPEED,
    GOAL_SPEED,
    HASTE_FACTOR,
    NORMAL_FACTOR,
    SLOW_FACTOR,
};
use crate::nums::{clamp_spec, sgn};
use crate::pathfind::{advance, advance_pos, overlap_at, DT_LIMIT};
use crate::steer::{steer, steer_x, steer_y, unit_x, unit_y};
use crate::world::{Actor, Chaser, Goal, InputIntent, Obstacle, WorldState};

verus! {

/// What one frame reports to the surrounding game-state layer.
#[derive(Clone, Copy, PartialEq, Eq, Structural, Debug)]
pub enum FrameOutcome {
    /// The level goes on.
    Continue,
    /// The actor reached the goal.
    Won,
    /// A chaser reached the goal first.
    Lost,
}

/// A countdown tick: timers only tick down while positive, so they never
/// fall more than one frame below zero.
pub open spec fn tick(t: int, dt: int) -> int {
    if t > 0 {
        t - dt
    } else {
        t
    }
}

/// The actor's effective speed this frame: the boosted base while the
/// speed-boost power-up is active, scaled by the per-frame multiplier.
pub open spec fn actor_speed(a: Actor) -> int {
    (if a.powerup_kind == PowerUpKind::SpeedBoost && a.powerup_timer > 0 {
        BOOSTED_SPEED as int
    } else {
        ACTOR_SPEED as int
    }) * (a.speed_mul as int) / (UNIT as int)
}

/// The raw input intent as a direction vector: each axis sign scaled to a
/// full `UNIT` (so diagonal input moves faster by design, as the input is
/// not renormalized).
pub open spec fn intent_dir(input: InputIntent) -> Vec2 {
    Vec2 { x: (input.x * UNIT) as i64, y: (input.y * UNIT) as i64 }
}

/// Whether the actor holds an active immunity power-up.
pub open spec fn actor_immune(a: Actor) -> bool {
    a.powerup_kind == PowerUpKind::Immunity && a.powerup_timer > 0
}

/// The actor-movement phase, field by field.
///
/// While stunned, only the clocks tick. Otherwise the facing follows the
/// last nonzero horizontal input; the rectangle advances under the
/// obstacle-aware integrator unless a bounce is in progress (a bounce
/// suppresses directed movement); and — only while moving diagonally and
/// not bouncing — a pressed trigger off cooldown fires the power-up,
/// else an idle power-up lets the cooldown tick.
pub open spec fn control_rel(
    a0: Actor,
    a1: Actor,
    input: InputIntent,
    dt: int,
    obs: Seq<Rect>,
) -> bool {
    if a0.stun_timer > 0 {
        a1 == Actor {
            stun_timer: (a0.stun_timer - dt) as i64,
            powerup_timer: tick(a0.powerup_timer as int, dt) as i64,
            ..a0
        }
    } else {
        let moved = if a0.bounce_progress is None {
            advance_pos(a0.rect, actor_speed(a0), intent_dir(input), dt, obs, false)
        } else {
            (a0.rect.x as int, a0.rect.y as int)
        };
        let trig_zone = a0.bounce_progress is None && input.x != 0 && input.y != 0;
        let fired = trig_zone && input.trigger && a0.powerup_cooldown <= 0;
        let pt1 = if fired {
            powerup_duration(a0.powerup_kind) as int
        } else {
            a0.powerup_timer as int
        };
        let cd1 = if fired {
            crate::kinds::POWERUP_COOLDOWN as int
        } else if trig_zone && a0.powerup_timer <= 0 {
            tick(a0.powerup_cooldown as int, dt)
        } else {
            a0.powerup_cooldown as int
        };
        &&& a1.rect.x == moved.0
        &&& a1.rect.y == moved.1
        &&& a1.rect.w == a0.rect.w
        &&& a1.rect.h == a0.rect.h
        &&& a1.dir_x == (if input.x != 0 {
            input.x
        } else {
            a0.dir_x
        })
        &&& a1.stun_timer == a0.stun_timer
        &&& a1.powerup_kind == a0.powerup_kind
        &&& a1.powerup_timer == tick(pt1, dt)
        &&& a1.powerup_cooldown == cd1
        &&& a1.speed_mul == a0.speed_mul
        &&& a1.bounce_dest == a0.bounce_dest
        &&& a1.bounce_progress == a0.bounce_progress
    }
}

/// Runs the actor-movement phase: input capture, movement under the
/// integrator, and the stun/power-up clocks.
pub fn control_actor(actor: &mut Actor, input: InputIntent, dt: i64, obstacles: &Vec<Rect>)
    requires
        old(actor).wf(),
        input.wf(),
        0 <= dt <= DT_LIMIT,
        forall|i: int| 0 <= i < obstacles@.len() ==> obstacles@[i].wf(),
        obstacles@.len() <= crate::pathfind::MAX_OBSTACLES,
    ensures
        control_rel(*old(actor), *final(actor), input, dt as int, obstacles@),
        final(actor).wf(),
{
    if actor.stun_timer > 0 {
        actor.stun_timer = actor.stun_timer - dt;
    } else {
        if input.x != 0 {
            actor.dir_x = input.x;
        }
        let base = if actor.powerup_kind == PowerUpKind::SpeedBoost && actor.powerup_timer > 0 {
            BOOSTED_SPEED
        } else {
            ACTOR_SPEED
        };
        assert(0 <= base * actor.speed_mul <= 256_000_000) by (nonlinear_arith)
            requires
                0 <= base <= 256_000,
                0 <= actor.speed_mul <= 1_000,
        {
        }
        let speed = base * actor.speed_mul / UNIT;
        proof {
            vstd::arithmetic::div_mod::lemma_div_pos_is_pos((base * actor.speed_mul) as int, UNIT as int);
            vstd::arithmetic::div_mod::lemma_div_is_ordered((base * actor.speed_mul) as int, 256_000_000, UNIT as int);
            assert(256_000_000int / 1_000int == 256_000);
        }
        if actor.bounce_progress.is_none() {
            let dir = Vec2 { x: input.x * UNIT, y: input.y * UNIT };
            advance(&mut actor.rect, speed, dir, dt, obstacles, false);
            if input.x != 0 && input.y != 0 {
                if input.trigger && actor.powerup_cooldown <= 0 {
                    actor.powerup_timer = powerup_duration(actor.powerup_kind);
                    actor.powerup_cooldown = crate::kinds::POWERUP_COOLDOWN;
                } else if actor.powerup_timer <= 0 {
                    if actor.powerup_cooldown > 0 {
                        actor.powerup_cooldown = actor.powerup_cooldown - dt;
                    }
                }
            }
        }
    }
    if actor.powerup_timer > 0 {
        actor.powerup_timer = actor.powerup_timer - dt;
    }
}

/// One entity's bounce playback, field by field: while a progress is set
/// the position is pulled toward the bounce destination and the progress
/// advances, clearing once past a full `UNIT`; otherwise nothing changes.
pub open spec fn playback_rel(
    rect0: Rect,
    rect1: Rect,
    dest: Vec2,
    p0: Option<i64>,
    p1: Option<i64>,
) -> bool {
    match p0 {
        None => rect1 == rect0 && p1 == p0,
        Some(p) => {
            &&& rect1.x == played(rect0.x as int, dest.x as int, p as int)
            &&& rect1.y == played(rect0.y as int, dest.y as int, p as int)
            &&& rect1.w == rect0.w
            &&& rect1.h == rect0.h
            &&& p1 == (if p > UNIT {
                None
            } else {
                Some((p + PROGRESS_STEP) as i64)
            })
        },
    }
}

/// The bounce-playback phase over the whole world: the actor and every
/// chaser play their bounce for one frame; everything else is untouched.
pub open spec fn phase_playback(w0: WorldState, w1: WorldState) -> bool {
    &&& playback_rel(
        w0.actor.rect,
        w1.actor.rect,
        w0.actor.bounce_dest,
        w0.actor.bounce_progress,
        w1.actor.bounce_progress,
    )
    &&& w1.actor == Actor {
        rect: w1.actor.rect,
        bounce_progress: w1.actor.bounce_progress,
        ..w0.actor
    }
    &&& w1.chasers@.len() == w0.chasers@.len()
    &&& forall|i: int|
        #![trigger w1.chasers@[i]]
        0 <= i < w0.chasers@.len() ==> {
            &&& playback_rel(
                w0.chasers@[i].rect,
                w1.chasers@[i].rect,
                w0.chasers@[i].bounce_dest,
                w0.chasers@[i].bounce_progress,
                w1.chasers@[i].bounce_progress,
            )
            &&& w1.chasers@[i] == Chaser {
                rect: w1.chasers@[i].rect,
                bounce_progress: w1.chasers@[i].bounce_progress,
                ..w0.chasers@[i]
            }
        }
    &&& w1.goal == w0.goal
    &&& w1.obstacles@ == w0.obstacles@
    &&& w1.rule == w0.rule
}

/// The goal's steering targets: the chasers' positions, or the actor's
/// position when no chasers exist.
pub open spec fn goal_targets(arect: Rect, chasers: Seq<Chaser>) -> Seq<Vec2> {
    if chasers.len() == 0 {
        seq![arect.spec_point()]
    } else {
        chasers.map_values(|c: Chaser| c.rect.spec_point())
    }
}

/// A facing update: the sign of the steering direction when nonzero, the
/// old facing otherwise.
pub open spec fn faced(old_dir: int, steer_dir: int) -> int {
    if sgn(steer_dir) != 0 {
        sgn(steer_dir)
    } else {
        old_dir
    }
}

/// The goal-movement phase, field by field: the goal flees the chasers
/// (or the actor when no chasers exist) under the steering module and
/// advances under the obstacle-aware integrator.
pub open spec fn goal_move_rel(
    g0: Goal,
    g1: Goal,
    arect: Rect,
    chasers: Seq<Chaser>,
    dt: int,
    obs: Seq<Rect>,
) -> bool {
    let ts = goal_targets(arect, chasers);
    let dx = steer_x(g0.rect.spec_point(), ts, true);
    let dy = steer_y(g0.rect.spec_point(), ts, true);
    let moved = advance_pos(
        g0.rect,
        GOAL_SPEED as int,
        Vec2 { x: dx as i64, y: dy as i64 },
        dt,
        obs,
        false,
    );
    &&& g1.rect.x == moved.0
    &&& g1.rect.y == moved.1
    &&& g1.rect.w == g0.rect.w
    &&& g1.rect.h == g0.rect.h
    &&& g1.dir_x == faced(g0.dir_x as int, dx)
}

/// Runs the goal-movement phase.
pub fn move_goal(
    goal: &mut Goal,
    arect: &Rect,
    chasers: &Vec<Chaser>,
    dt: i64,
    obstacles: &Vec<Rect>,
)
    requires
        old(goal).wf(),
        arect.wf(),
        forall|i: int| 0 <= i < chasers@.len() ==> #[trigger] chasers@[i].wf(),
        chasers@.len() <= crate::world::MAX_CHASERS,
        0 <= dt <= DT_LIMIT,
        forall|i: int| 0 <= i < obstacles@.len() ==> obstacles@[i].wf(),
        obstacles@.len() <= crate::pathfind::MAX_OBSTACLES,
    ensures
        goal_move_rel(*old(goal), *final(goal), *arect, chasers@, dt as int, obstacles@),
        final(goal).wf(),
{
    let mut targets: Vec<Vec2> = Vec::new();
    if chasers.len() == 0 {
        targets.push(arect.point());
    } else {
        let mut i: usize = 0;
        while i < chasers.len()
            invariant
                i <= chasers@.len(),
                targets@.len() == i,
                forall|j: int| 0 <= j < chasers@.len() ==> #[trigger] chasers@[j].wf(),
                forall|j: int|
                    0 <= j < i ==> #[trigger] targets@[j] == chasers@[j].rect.spec_point(),
            decreases chasers@.len() - i,
        {
            targets.push(chasers[i].rect.point());
            i = i + 1;
        }
    }
    proof {
        assert(targets@ =~= goal_targets(*arect, chasers@));
        assert forall|j: int| 0 <= j < targets@.len() implies (#[trigger] targets@[j]).within(
            POS_LIMIT as int,
        ) by {
            if chasers@.len() > 0 {
                assert(chasers@[j].wf());
            }
        }
    }
    let dir = steer(goal.rect.point(), &targets, true);
    if dir.x > 0 {
        goal.dir_x = 1;
    } else if dir.x < 0 {
        goal.dir_x = -1;
    }
    advance(&mut goal.rect, GOAL_SPEED, dir, dt, obstacles, false);
}

/// The level outcome a frame reports, read off the world after the goal
/// has moved: a chaser reaching the goal loses the level (loss takes
/// precedence), the actor reaching the goal wins it, anything else
/// continues.
pub open spec fn outcome_of(w: WorldState) -> FrameOutcome {
    if exists|i: int|
        0 <= i < w.chasers@.len() && (#[trigger] w.chasers@[i]).rect.spec_overlaps(w.goal.rect) {
        FrameOutcome::Lost
    } else if w.actor.rect.spec_overlaps(w.goal.rect) {
        FrameOutcome::Won
    } else {
        FrameOutcome::Continue
    }
}

/// Checks the win/loss conditions of the frame.
pub fn goal_outcome(w: &WorldState) -> (r: FrameOutcome)
    ensures
        r == outcome_of(*w),
{
    let mut i: usize = 0;
    let mut lost = false;
    while i < w.chasers.len()
        invariant
            i <= w.chasers@.len(),
            lost == exists|j: int|
                0 <= j < i && (#[trigger] w.chasers@[j]).rect.spec_overlaps(w.goal.rect),
        decreases w.chasers@.len() - i,
    {
        if w.chasers[i].rect.overlaps(&w.goal.rect) {
            lost = true;
        }
        i = i + 1;
    }
    if lost {
        FrameOutcome::Lost
    } else if w.actor.rect.overlaps(&w.goal.rect) {
        FrameOutcome::Won
    } else {
        FrameOutcome::Continue
    }
}

/// A chaser's effective speed this frame: the base speed scaled by the
/// per-frame multiplier.
pub open spec fn chaser_speed(c: Chaser) -> int {
    (CHASER_SPEED as int) * (c.speed_mul as int) / (UNIT as int)
}

/// Whether the actor is within a chaser's square sensing range: a square
/// of the kind's half-extent, centered on the chaser.
pub open spec fn chaser_near(c: Chaser, arect: Rect) -> bool {
    let range = chaser_proximity(c.kind) as int;
    overlap_at(c.rect.cx() - range, c.rect.cy() - range, 2 * range, 2 * range, arect)
}

/// The point a chaser steers toward this frame: a defender with the
/// actor in range pursues the actor directly, every other case pursues
/// the goal.
pub open spec fn chaser_target(c: Chaser, arect: Rect, grect: Rect) -> Vec2 {
    if c.kind == ChaserKind::Defender && chaser_near(c, arect) {
        arect.spec_point()
    } else {
        grect.spec_point()
    }
}

/// One chaser's movement, field by field: steer toward the kind's target,
/// update the facing to the sign of the steering direction, and advance
/// under the integrator (obstacle correction suppressed while bouncing).
pub open spec fn chaser_move_rel(
    c0: Chaser,
    c1: Chaser,
    arect: Rect,
    grect: Rect,
    dt: int,
    obs: Seq<Rect>,
) -> bool {
    let t = chaser_target(c0, arect, grect);
    let dx = unit_x(t.x - c0.rect.x, t.y - c0.rect.y);
    let dy = unit_y(t.x - c0.rect.x, t.y - c0.rect.y);
    let moved = advance_pos(
        c0.rect,
        chaser_speed(c0),
        Vec2 { x: dx as i64, y: dy as i64 },
        dt,
        obs,
        c0.bounce_progress is Some,
    );
    &&& c1.rect.x == moved.0
    &&& c1.rect.y == moved.1
    &&& c1.rect.w == c0.rect.w
    &&& c1.rect.h == c0.rect.h
    &&& c1.dir_x == faced(c0.dir_x as int, dx)
    &&& c1.kind == c0.kind
    &&& c1.speed_mul == c0.speed_mul
    &&& c1.bounce_dest == c0.bounce_dest
    &&& c1.bounce_progress == c0.bounce_progress
}

/// Whether some slower-kind chaser has the actor in its sensing range
/// this frame.
pub open spec fn any_slower_near(cs: Seq<Chaser>, arect: Rect) -> bool {
    exists|i: int|
        0 <= i < cs.len() && (#[trigger] cs[i]).kind == ChaserKind::Slower && chaser_near(
            cs[i],
            arect,
        )
}

/// Runs the hostile-movement phase: every chaser steers and moves, a
/// slower with the actor in range slows the actor for this frame, and
/// the actor's speed multiplier is reset to normal otherwise.
pub fn move_chasers(
    chasers: &mut Vec<Chaser>,
    actor: &mut Actor,
    grect: &Rect,
    dt: i64,
    obstacles: &Vec<Rect>,
)
    requires
        forall|i: int| 0 <= i < old(chasers)@.len() ==> (#[trigger] old(chasers)@[i]).wf(),
        old(chasers)@.len() <= crate::world::MAX_CHASERS,
        old(actor).wf(),
        grect.wf(),
        0 <= dt <= DT_LIMIT,
        forall|i: int| 0 <= i < obstacles@.len() ==> obstacles@[i].wf(),
        obstacles@.len() <= crate::pathfind::MAX_OBSTACLES,
    ensures
        final(chasers)@.len() == old(chasers)@.len(),
        forall|i: int|
            #![trigger final(chasers)@[i]]
            0 <= i < old(chasers)@.len() ==> chaser_move_rel(
                old(chasers)@[i],
                final(chasers)@[i],
                old(actor).rect,
                *grect,
                dt as int,
                obstacles@,
            ) && final(chasers)@[i].wf(),
        *final(actor) == (Actor {
            speed_mul: if any_slower_near(old(chasers)@, old(actor).rect) {
                SLOW_FACTOR
            } else {
                NORMAL_FACTOR
            },
            ..*old(actor)
        }),
        final(actor).wf(),
{
    let ghost cs0 = chasers@;
    let ghost arect = actor.rect;
    let mut slowed = false;
    let mut i: usize = 0;
    while i < chasers.len()
        invariant
            i <= cs0.len(),
            chasers@.len() == cs0.len(),
            cs0.len() <= crate::world::MAX_CHASERS,
            arect == actor.rect,
            actor.wf(),
            grect.wf(),
            0 <= dt <= DT_LIMIT,
            forall|j: int| 0 <= j < cs0.len() ==> (#[trigger] cs0[j]).wf(),
            forall|j: int| i <= j < cs0.len() ==> #[trigger] chasers@[j] == cs0[j],
            forall|j: int|
                #![trigger chasers@[j]]
                0 <= j < i ==> chaser_move_rel(
                    cs0[j],
                    chasers@[j],
                    arect,
                    *grect,
                    dt as int,
                    obstacles@,
                ) && chasers@[j].wf(),
            slowed == (exists|j: int|
                0 <= j < i && (#[trigger] cs0[j]).kind == ChaserKind::Slower && chaser_near(
                    cs0[j],
                    arect,
                )),
            forall|j: int| 0 <= j < obstacles@.len() ==> obstacles@[j].wf(),
            obstacles@.len() <= crate::pathfind::MAX_OBSTACLES,
        decreases cs0.len() - i,
    {
        let c = chasers[i];
        let range = chaser_proximity(c.kind);
        let prox = Rect {
            x: c.rect.x + c.rect.w / 2 - range,
            y: c.rect.y + c.rect.h / 2 - range,
            w: 2 * range,
            h: 2 * range,
        };
        let near = prox.overlaps(&actor.rect);
        proof {
            assert(near == chaser_near(c, arect));
        }
        if c.kind == ChaserKind::Slower && near {
            slowed = true;
        }
        let target = if c.kind == ChaserKind::Defender && near {
            actor.rect.point()
        } else {
            grect.point()
        };
        let d = crate::steer::norm_or_zero(
            Vec2 { x: target.x - c.rect.x, y: target.y - c.rect.y },
        );
        let mut c2 = c;
        if d.x > 0 {
            c2.dir_x = 1;
        } else if d.x < 0 {
            c2.dir_x = -1;
        }
        assert(0 <= CHASER_SPEED * c.speed_mul <= 210_000_000) by (nonlinear_arith)
            requires
                CHASER_SPEED == 140_000i64,
                0 <= c.speed_mul <= 1_500,
        {
        }
        let speed = CHASER_SPEED * c.speed_mul / UNIT;
        proof {
            vstd::arithmetic::div_mod::lemma_div_pos_is_pos(
                (CHASER_SPEED * c.speed_mul) as int,
                UNIT as int,
            );
            vstd::arithmetic::div_mod::lemma_div_is_ordered(
                (CHASER_SPEED * c.speed_mul) as int,
                210_000_000,
                UNIT as int,
            );
            assert(210_000_000int / 1_000int == 210_000);
        }
        let bouncing = c.bounce_progress.is_some();
        advance(&mut c2.rect, speed, d, dt, obstacles, bouncing);
        chasers.set(i, c2);
        i = i + 1;
    }
    if slowed {
        actor.speed_mul = SLOW_FACTOR;
    } else {
        actor.speed_mul = NORMAL_FACTOR;
    }
}

/// The first chaser index from `i` on whose rectangle overlaps `arect`,
/// or -1 when none does.
pub open spec fn first_hit_from(cs: Seq<Chaser>, arect: Rect, i: int) -> int
    decreases cs.len() - i,
{
    if i < 0 || i >= cs.len() {
        -1
    } else if arect.spec_overlaps(cs[i].rect) {
        i
    } else {
        first_hit_from(cs, arect, i + 1)
    }
}

/// Scanning over indices known not to hit does not change the first hit.
proof fn lemma_first_hit_skip(cs: Seq<Chaser>, arect: Rect, m: int, k: int)
    requires
        0 <= m <= k <= cs.len(),
        forall|j: int| m <= j < k ==> !arect.spec_overlaps((#[trigger] cs[j]).rect),
    ensures
        first_hit_from(cs, arect, m) == first_hit_from(cs, arect, k),
    decreases k - m,
{
    if m < k {
        lemma_first_hit_skip(cs, arect, m + 1, k);
    }
}

/// The bounce collision rule, field by field: with the actor neither
/// immune nor already bouncing, the first overlapping chaser and the
/// actor both receive a fresh bounce — destinations offset from their own
/// positions along (actor) and against (chaser) the center-to-center
/// direction by the chaser kind's distance — and nobody despawns. Any
/// other case changes nothing.
pub open spec fn bounce_collide_rel(
    a0: Actor,
    a1: Actor,
    cs0: Seq<Chaser>,
    cs1: Seq<Chaser>,
) -> bool {
    let fh = first_hit_from(cs0, a0.rect, 0);
    if actor_immune(a0) || a0.bounce_progress is Some || fh == -1 {
        a1 == a0 && cs1 == cs0
    } else {
        let c = cs0[fh];
        let amount = chaser_bounce(c.kind) as int;
        &&& a1 == (Actor {
            bounce_dest: a1.bounce_dest,
            bounce_progress: a1.bounce_progress,
            ..a0
        })
        &&& a1.bounce_dest.x == clamp_spec(
            a0.rect.x + bounce_off_x(a0.rect, c.rect, amount),
            POS_LIMIT as int,
        )
        &&& a1.bounce_dest.y == clamp_spec(
            a0.rect.y + bounce_off_y(a0.rect, c.rect, amount),
            POS_LIMIT as int,
        )
        &&& a1.bounce_progress == Some(0i64)
        &&& cs1.len() == cs0.len()
        &&& (forall|j: int| 0 <= j < cs0.len() && j != fh ==> #[trigger] cs1[j] == cs0[j])
        &&& cs1[fh] == (Chaser {
            bounce_dest: cs1[fh].bounce_dest,
            bounce_progress: cs1[fh].bounce_progress,
            ..c
        })
        &&& cs1[fh].bounce_dest.x == clamp_spec(
            c.rect.x - bounce_off_x(a0.rect, c.rect, amount),
            POS_LIMIT as int,
        )
        &&& cs1[fh].bounce_dest.y == clamp_spec(
            c.rect.y - bounce_off_y(a0.rect, c.rect, amount),
            POS_LIMIT as int,
        )
        &&& cs1[fh].bounce_progress == Some(0i64)
    }
}

/// The chasers that survive the despawn rule: those not overlapping the
/// actor, in their original order.
pub open spec fn surviving(cs: Seq<Chaser>, arect: Rect, i: int) -> Seq<Chaser>
    decreases cs.len() - i,
{
    if i < 0 || i >= cs.len() {
        Seq::empty()
    } else if arect.spec_overlaps(cs[i].rect) {
        surviving(cs, arect, i + 1)
    } else {
        seq![cs[i]] + surviving(cs, arect, i + 1)
    }
}

/// The stun timer after the despawn rule: each overlapping chaser in turn
/// sets the stun to its kind's duration, so the last one wins; without
/// any overlap the timer stays.
pub open spec fn stun_fold(cs: Seq<Chaser>, arect: Rect, i: int, cur: int) -> int
    decreases cs.len() - i,
{
    if i < 0 || i >= cs.len() {
        cur
    } else {
        stun_fold(
            cs,
            arect,
            i + 1,
            if arect.spec_overlaps(cs[i].rect) {
                chaser_stun(cs[i].kind) as int
            } else {
                cur
            },
        )
    }
}

/// The despawn-and-stun collision rule, field by field: every chaser
/// overlapping the actor despawns; the actor's stun timer is set to the
/// (last such) chaser kind's duration, unless an active immunity
/// power-up suppresses the stun — the chasers despawn either way.
pub open spec fn despawn_rel(a0: Actor, a1: Actor, cs0: Seq<Chaser>, cs1: Seq<Chaser>) -> bool {
    &&& cs1 == surviving(cs0, a0.rect, 0)
    &&& a1 == (Actor {
        stun_timer: (if actor_immune(a0) {
            a0.stun_timer as int
        } else {
            stun_fold(cs0, a0.rect, 0, a0.stun_timer as int)
        }) as i64,
        ..a0
    })
}

/// Runs the actor-versus-chaser collision phase under the level's rule.
pub fn resolve_collisions(w: &mut WorldState)
    requires
        old(w).wf(),
    ensures
        match old(w).rule {
            CollisionRule::Bounce => bounce_collide_rel(
                old(w).actor,
                final(w).actor,
                old(w).chasers@,
                final(w).chasers@,
            ),
            CollisionRule::DespawnStun => despawn_rel(
                old(w).actor,
                final(w).actor,
                old(w).chasers@,
                final(w).chasers@,
            ),
        },
        final(w).goal == old(w).goal,
        final(w).obstacles@ == old(w).obstacles@,
        final(w).rule == old(w).rule,
        final(w).wf(),
{
    let ghost cs0 = w.chasers@;
    let ghost a0 = w.actor;
    let immune = w.actor.powerup_kind == PowerUpKind::Immunity && w.actor.powerup_timer > 0;
    match w.rule {
        CollisionRule::Bounce => {
            if !immune && w.actor.bounce_progress.is_none() {
                let n = w.chasers.len();
                let mut fh: usize = n;
                let mut i: usize = 0;
                while i < n
                    invariant
                        i <= n,
                        n == cs0.len(),
                        w.chasers@ == cs0,
                        w.actor == a0,
                        fh <= n,
                        fh == n ==> forall|j: int|
                            0 <= j < i ==> !a0.rect.spec_overlaps((#[trigger] cs0[j]).rect),
                        fh < n ==> fh < i && a0.rect.spec_overlaps(cs0[fh as int].rect) && forall|
                            j: int,
                        |
                            0 <= j < fh ==> !a0.rect.spec_overlaps((#[trigger] cs0[j]).rect),
                    decreases n - i,
                {
                    if fh == n && w.actor.rect.overlaps(&w.chasers[i].rect) {
                        fh = i;
                    }
                    i = i + 1;
                }
                if fh < n {
                    proof {
                        lemma_first_hit_skip(cs0, a0.rect, 0, fh as int);
                        assert(first_hit_from(cs0, a0.rect, 0) == fh);
                    }
                    let mut c = w.chasers[fh];
                    let amount = chaser_bounce(c.kind);
                    assert(0 <= amount <= crate::geom::SIZE_LIMIT);
                    let dests = bounce_dests(&w.actor.rect, &c.rect, amount);
                    w.actor.bounce_dest = dests.0;
                    w.actor.bounce_progress = Some(0);
                    c.bounce_dest = dests.1;
                    c.bounce_progress = Some(0);
                    w.chasers.set(fh, c);
                } else {
                    proof {
                        assert(forall|j: int|
                            0 <= j < cs0.len() ==> !a0.rect.spec_overlaps(
                                (#[trigger] cs0[j]).rect,
                            ));
                        lemma_first_hit_skip(cs0, a0.rect, 0, n as int);
                        assert(first_hit_from(cs0, a0.rect, 0) == -1);
                    }
                }
            } else {
                proof {
                    assert(bounce_collide_rel(a0, w.actor, cs0, w.chasers@));
                }
            }
        },
        CollisionRule::DespawnStun => {
            let mut kept: Vec<Chaser> = Vec::new();
            let mut stun = w.actor.stun_timer;
            let mut i: usize = 0;
            while i < w.chasers.len()
                invariant
                    i <= cs0.len(),
                    w.chasers@ == cs0,
                    w.actor == a0,
                    a0.wf(),
                    forall|j: int| 0 <= j < cs0.len() ==> (#[trigger] cs0[j]).wf(),
                    kept@.len() <= i,
                    forall|j: int| 0 <= j < kept@.len() ==> (#[trigger] kept@[j]).wf(),
                    kept@ + surviving(cs0, a0.rect, i as int) == surviving(cs0, a0.rect, 0),
                    immune == actor_immune(a0),
                    immune ==> stun == a0.stun_timer,
                    !immune ==> stun_fold(cs0, a0.rect, i as int, stun as int) == stun_fold(
                        cs0,
                        a0.rect,
                        0,
                        a0.stun_timer as int,
                    ),
                    crate::world::timer_wf(stun as int),
                decreases cs0.len() - i,
            {
                let c = w.chasers[i];
                if w.actor.rect.overlaps(&c.rect) {
                    if !immune {
                        stun = chaser_stun(c.kind);
                    }
                    proof {
                        assert(surviving(cs0, a0.rect, i as int) == surviving(
                            cs0,
                            a0.rect,
                            i as int + 1,
                        ));
                    }
                } else {
                    proof {
                        assert(surviving(cs0, a0.rect, i as int) == seq![cs0[i as int]]
                            + surviving(cs0, a0.rect, i as int + 1));
                        assert(kept@.push(c) + surviving(cs0, a0.rect, i as int + 1) =~= kept@
                            + surviving(cs0, a0.rect, i as int));
                    }
                    kept.push(c);
                }
                i = i + 1;
            }
            proof {
                assert(surviving(cs0, a0.rect, cs0.len() as int) == Seq::<Chaser>::empty());
                assert(kept@ + Seq::<Chaser>::empty() =~= kept@);
            }
            w.chasers = kept;
            if immune {
            } else {
                w.actor.stun_timer = stun;
            }
        },
    }
}

/// Whether a chaser rectangle is within an obstacle's hastening range: a
/// square of the kind's half-extent, centered on the obstacle.
pub open spec fn obstacle_near(o: Obstacle, crect: Rect) -> bool {
    let range = obstacle_proximity(o.kind) as int;
    overlap_at(o.rect.cx() - range, o.rect.cy() - range, 2 * range, 2 * range, crect)
}

/// Whether some obstacle has the chaser rectangle in its hastening range.
pub open spec fn any_obstacle_near(obs: Seq<Obstacle>, crect: Rect) -> bool {
    exists|j: int| 0 <= j < obs.len() && obstacle_near(#[trigger] obs[j], crect)
}

/// The obstacle-proximity phase over the chasers, field by field: a
/// chaser near some obstacle is hastened for the coming frame, any other
/// chaser runs at normal speed.
pub open spec fn haste_rel(cs0: Seq<Chaser>, cs1: Seq<Chaser>, obs: Seq<Obstacle>) -> bool {
    &&& cs1.len() == cs0.len()
    &&& forall|i: int|
        #![trigger cs1[i]]
        0 <= i < cs0.len() ==> cs1[i] == (Chaser {
            speed_mul: if any_obstacle_near(obs, cs0[i].rect) {
                HASTE_FACTOR
            } else {
                NORMAL_FACTOR
            },
            ..cs0[i]
        })
}

/// Runs the obstacle-proximity phase: every chaser near a hastening
/// obstacle gets the hastened speed multiplier, every other chaser the
/// normal one.
pub fn haste_chasers(chasers: &mut Vec<Chaser>, obstacles: &Vec<Obstacle>)
    requires
        forall|i: int| 0 <= i < old(chasers)@.len() ==> (#[trigger] old(chasers)@[i]).wf(),
        forall|i: int| 0 <= i < obstacles@.len() ==> (#[trigger] obstacles@[i]).wf(),
    ensures
        haste_rel(old(chasers)@, final(chasers)@, obstacles@),
        forall|i: int| 0 <= i < final(chasers)@.len() ==> (#[trigger] final(chasers)@[i]).wf(),
{
    let ghost cs0 = chasers@;
    let mut i: usize = 0;
    while i < chasers.len()
        invariant
            i <= cs0.len(),
            chasers@.len() == cs0.len(),
            forall|j: int| 0 <= j < cs0.len() ==> (#[trigger] cs0[j]).wf(),
            forall|j: int| 0 <= j < obstacles@.len() ==> (#[trigger] obstacles@[j]).wf(),
            forall|j: int| i <= j < cs0.len() ==> #[trigger] chasers@[j] == cs0[j],
            forall|j: int|
                #![trigger chasers@[j]]
                0 <= j < i ==> chasers@[j] == (Chaser {
                    speed_mul: if any_obstacle_near(obstacles@, cs0[j].rect) {
                        HASTE_FACTOR
                    } else {
                        NORMAL_FACTOR
                    },
                    ..cs0[j]
                }) && chasers@[j].wf(),
        decreases cs0.len() - i,
    {
        let c = chasers[i];
        let mut near = false;
        let mut j: usize = 0;
        while j < obstacles.len()
            invariant
                j <= obstacles@.len(),
                forall|k: int| 0 <= k < obstacles@.len() ==> (#[trigger] obstacles@[k]).wf(),
                near == (exists|k: int|
                    0 <= k < j && obstacle_near(#[trigger] obstacles@[k], c.rect)),
            decreases obstacles@.len() - j,
        {
            let o = &obstacles[j];
            let range = crate::kinds::obstacle_proximity(o.kind);
            let prox = Rect {
                x: o.rect.x + o.rect.w / 2 - range,
                y: o.rect.y + o.rect.h / 2 - range,
                w: 2 * range,
                h: 2 * range,
            };
            if prox.overlaps(&c.rect) {
                proof {
                    assert(obstacle_near(obstacles@[j as int], c.rect));
                }
                near = true;
            }
            j = j + 1;
        }
        let mut c2 = c;
        if near {
            c2.speed_mul = HASTE_FACTOR;
        } else {
            c2.speed_mul = NORMAL_FACTOR;
        }
        chasers.set(i, c2);
        i = i + 1;
    }
}

/// The obstacles' plain rectangles, as the integrator sees them.
pub open spec fn obs_rects(w: WorldState) -> Seq<Rect> {
    w.obstacles@.map_values(|o: Obstacle| o.rect)
}

/// The actor-movement phase over the whole world.
pub open spec fn phase_control(
    w0: WorldState,
    w1: WorldState,
    input: InputIntent,
    dt: int,
) -> bool {
    &&& control_rel(w0.actor, w1.actor, input, dt, obs_rects(w0))
    &&& w1.goal == w0.goal
    &&& w1.chasers@ == w0.chasers@
    &&& w1.obstacles@ == w0.obstacles@
    &&& w1.rule == w0.rule
}

/// The goal-movement phase over the whole world.
pub open spec fn phase_goal(w0: WorldState, w1: WorldState, dt: int) -> bool {
    &&& goal_move_rel(w0.goal, w1.goal, w0.actor.rect, w0.chasers@, dt, obs_rects(w0))
    &&& w1.actor == w0.actor
    &&& w1.chasers@ == w0.chasers@
    &&& w1.obstacles@ == w0.obstacles@
    &&& w1.rule == w0.rule
}

/// The hostile-movement phase over the whole world: every chaser moves
/// and the actor's speed multiplier is re-applied or reset.
pub open spec fn phase_chasers(w0: WorldState, w1: WorldState, dt: int) -> bool {
    &&& w1.chasers@.len() == w0.chasers@.len()
    &&& forall|i: int|
        #![trigger w1.chasers@[i]]
        0 <= i < w0.chasers@.len() ==> chaser_move_rel(
            w0.chasers@[i],
            w1.chasers@[i],
            w0.actor.rect,
            w0.goal.rect,
            dt,
            obs_rects(w0),
        )
    &&& w1.actor == (Actor {
        speed_mul: if any_slower_near(w0.chasers@, w0.actor.rect) {
            SLOW_FACTOR
        } else {
            NORMAL_FACTOR
        },
        ..w0.actor
    })
    &&& w1.goal == w0.goal
    &&& w1.obstacles@ == w0.obstacles@
    &&& w1.rule == w0.rule
}

/// The collision-resolution phase over the whole world, under the
/// level's rule.
pub open spec fn phase_collide(w0: WorldState, w1: WorldState) -> bool {
    &&& (match w0.rule {
        CollisionRule::Bounce => bounce_collide_rel(w0.actor, w1.actor, w0.chasers@, w1.chasers@),
        CollisionRule::DespawnStun => despawn_rel(w0.actor, w1.actor, w0.chasers@, w1.chasers@),
    })
    &&& w1.goal == w0.goal
    &&& w1.obstacles@ == w0.obstacles@
    &&& w1.rule == w0.rule
}

/// The obstacle-proximity phase over the whole world.
pub open spec fn phase_haste(w0: WorldState, w1: WorldState) -> bool {
    &&& haste_rel(w0.chasers@, w1.chasers@, w0.obstacles@)
    &&& w1.actor == w0.actor
    &&& w1.goal == w0.goal
    &&& w1.obstacles@ == w0.obstacles@
    &&& w1.rule == w0.rule
}

/// One whole frame: the phases run in their fixed order, each reading
/// the state the previous phase wrote, and the outcome is read off the
/// world right after the goal has moved.
pub open spec fn step_rel(
    w0: WorldState,
    w6: WorldState,
    input: InputIntent,
    dt: int,
    outcome: FrameOutcome,
) -> bool {
    exists|s1: WorldState, s2: WorldState, s3: WorldState, s4: WorldState, s5: WorldState|
        #![trigger phase_control(w0, s1, input, dt), phase_playback(s1, s2), phase_goal(s2, s3, dt), phase_chasers(s3, s4, dt), phase_collide(s4, s5), phase_haste(s5, w6)]
        {
            &&& phase_control(w0, s1, input, dt)
            &&& phase_playback(s1, s2)
            &&& phase_goal(s2, s3, dt)
            &&& outcome == outcome_of(s3)
            &&& phase_chasers(s3, s4, dt)
            &&& phase_collide(s4, s5)
            &&& phase_haste(s5, w6)
        }
}

/// Computes one simulation frame: actor movement and bookkeeping, bounce
/// playback, goal movement, the win/loss check, hostile movement and
/// proximity effects, collision resolution under the level's rule, and
/// the obstacle proximity multipliers — in that order — and reports
/// whether the level was won, lost, or goes on.
pub fn step(w: &mut WorldState, input: InputIntent, dt: i64) -> (outcome: FrameOutcome)
    requires
        old(w).wf(),
        input.wf(),
        0 <= dt <= DT_LIMIT,
    ensures
        final(w).wf(),
        step_rel(*old(w), *final(w), input, dt as int, outcome),
        final(w).obstacles@ == old(w).obstacles@,
        final(w).rule == old(w).rule,
{
    let ghost w0 = *w;
    let rs = w.obstacle_rects();
    proof {
        assert(rs@ =~= obs_rects(*w));
    }
    control_actor(&mut w.actor, input, dt, &rs);
    let ghost s1 = *w;
    bounce_step(&mut w.actor.rect, w.actor.bounce_dest, &mut w.actor.bounce_progress);
    let ghost cs_pb0 = w.chasers@;
    let ghost a_pb = w.actor;
    let mut i: usize = 0;
    while i < w.chasers.len()
        invariant
            i <= cs_pb0.len(),
            w.actor == a_pb,
            w.goal == s1.goal,
            w.obstacles@ == s1.obstacles@,
            w.rule == s1.rule,
            w.chasers@.len() == cs_pb0.len(),
            forall|j: int| 0 <= j < cs_pb0.len() ==> (#[trigger] cs_pb0[j]).wf(),
            forall|j: int| i <= j < cs_pb0.len() ==> #[trigger] w.chasers@[j] == cs_pb0[j],
            forall|j: int|
                #![trigger w.chasers@[j]]
                0 <= j < i ==> {
                    &&& playback_rel(
                        cs_pb0[j].rect,
                        w.chasers@[j].rect,
                        cs_pb0[j].bounce_dest,
                        cs_pb0[j].bounce_progress,
                        w.chasers@[j].bounce_progress,
                    )
                    &&& w.chasers@[j] == (Chaser {
                        rect: w.chasers@[j].rect,
                        bounce_progress: w.chasers@[j].bounce_progress,
                        ..cs_pb0[j]
                    })
                    &&& w.chasers@[j].wf()
                },
        decreases cs_pb0.len() - i,
    {
        let mut c = w.chasers[i];
        bounce_step(&mut c.rect, c.bounce_dest, &mut c.bounce_progress);
        w.chasers.set(i, c);
        i = i + 1;
    }
    let ghost s2 = *w;
    proof {
        assert(playback_rel(
            s1.actor.rect,
            s2.actor.rect,
            s1.actor.bounce_dest,
            s1.actor.bounce_progress,
            s2.actor.bounce_progress,
        ));
        assert(s2.actor == (Actor {
            rect: s2.actor.rect,
            bounce_progress: s2.actor.bounce_progress,
            ..s1.actor
        }));
        assert(s2.chasers@.len() == s1.chasers@.len());
        assert forall|j: int| 0 <= j < s1.chasers@.len() implies {
            &&& playback_rel(
                s1.chasers@[j].rect,
                (#[trigger] s2.chasers@[j]).rect,
                s1.chasers@[j].bounce_dest,
                s1.chasers@[j].bounce_progress,
                s2.chasers@[j].bounce_progress,
            )
            &&& s2.chasers@[j] == (Chaser {
                rect: s2.chasers@[j].rect,
                bounce_progress: s2.chasers@[j].bounce_progress,
                ..s1.chasers@[j]
            })
        } by {
            assert(s1.chasers@[j] == cs_pb0[j]);
            assert(s2.chasers@[j] == w.chasers@[j]);
        }
        assert(s2.goal == s1.goal && s2.obstacles@ == s1.obstacles@ && s2.rule == s1.rule);
        assert(phase_playback(s1, s2));
    }
    move_goal(&mut w.goal, &w.actor.rect, &w.chasers, dt, &rs);
    let ghost s3 = *w;
    let outcome = goal_outcome(w);
    move_chasers(&mut w.chasers, &mut w.actor, &w.goal.rect, dt, &rs);
    let ghost s4 = *w;
    resolve_collisions(w);
    let ghost s5 = *w;
    haste_chasers(&mut w.chasers, &w.obstacles);
    proof {
        assert(phase_control(w0, s1, input, dt as int));
        assert(phase_goal(s2, s3, dt as int));
        assert(phase_chasers(s3, s4, dt as int));
        assert(phase_collide(s4, s5));
        assert(phase_haste(s5, *w));
        assert(step_rel(w0, *w, input, dt as int, outcome));
    }
    outcome
}

} // verus!

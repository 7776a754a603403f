//! The world: the actor, the single goal, the hostile chasers and the
//! static obstacles of one level, with their well-formedness invariants,
//! plus level construction and teardown.
//!
//! The goal and the actor are singleton fields, not queried collections,
//! so "the one goal" is an arity guaranteed by construction. Countdown
//! timers tick in milliseconds and only ever tick down while positive, so
//! a timer is never more than one frame below zero.

use vstd::prelude::*;

use crate::bounce::PROGRESS_LIMIT;
use crate::geom::{Rect, Vec2, POS_LIMIT};
use crate::kinds::{
    chaser_height,
    chaser_width,
    obstacle_height,
    obstacle_width,
    ChaserKind,
    CollisionRule,
    ObstacleKind,
    PowerUpKind,
    ACTOR_HEIGHT,
    ACTOR_WIDTH,
    GOAL_HEIGHT,
    GOAL_WIDTH,
    HASTE_FACTOR,
    NORMAL_FACTOR,
    SLOW_FACTOR,
    TIMER_LIMIT,
};
use crate::pathfind::{DT_LIMIT, MAX_OBSTACLES};

verus! {

/// Most chasers one level accepts.
pub const MAX_CHASERS: usize = 100_000;

/// A countdown timer in milliseconds: set to a bounded positive duration,
/// it only ever ticks down while positive, so it never falls more than
/// one frame below zero.
pub open spec fn timer_wf(t: int) -> bool {
    -(DT_LIMIT as int) <= t <= TIMER_LIMIT as int
}

/// A facing sign: -1, 0 or +1.
pub open spec fn facing_wf(d: int) -> bool {
    d == -1 || d == 0 || d == 1
}

/// An optional bounce progress lies in its stored range.
pub open spec fn progress_wf(p: Option<i64>) -> bool {
    p matches Some(v) ==> 0 <= v <= PROGRESS_LIMIT
}

/// The player-controlled entity.
#[derive(Clone, Copy, Debug)]
pub struct Actor {
    /// Position and size.
    pub rect: Rect,
    /// Facing sign: the sign of the last nonzero horizontal input.
    pub dir_x: i64,
    /// Seconds remaining (in ms) during which movement is suppressed.
    pub stun_timer: i64,
    /// The one power-up kind this actor can trigger, chosen at spawn.
    pub powerup_kind: PowerUpKind,
    /// Remaining duration (ms) of the active power-up.
    pub powerup_timer: i64,
    /// Remaining cooldown (ms) before the power-up can trigger again.
    pub powerup_cooldown: i64,
    /// Speed multiplier in per-mille, re-applied or reset every frame.
    pub speed_mul: i64,
    /// Destination of the active bounce.
    pub bounce_dest: Vec2,
    /// Progress of the active bounce in `UNIT` thousandths, when bouncing.
    pub bounce_progress: Option<i64>,
}

impl Actor {
    /// Well-formed: actor-sized rectangle in range, sign facing, bounded
    /// timers, a slowed-or-normal speed multiplier and a valid bounce
    /// record.
    pub open spec fn wf(self) -> bool {
        &&& self.rect.wf()
        &&& self.rect.w == ACTOR_WIDTH
        &&& self.rect.h == ACTOR_HEIGHT
        &&& facing_wf(self.dir_x as int)
        &&& timer_wf(self.stun_timer as int)
        &&& timer_wf(self.powerup_timer as int)
        &&& timer_wf(self.powerup_cooldown as int)
        &&& (self.speed_mul == SLOW_FACTOR || self.speed_mul == NORMAL_FACTOR)
        &&& self.bounce_dest.within(POS_LIMIT as int)
        &&& progress_wf(self.bounce_progress)
    }

    /// A fresh actor at `pos` with the given power-up kind: facing
    /// neutral, unstunned, power-up idle, normal speed, not bouncing.
    pub fn new(pos: Vec2, powerup_kind: PowerUpKind) -> (a: Actor)
        requires
            pos.within(POS_LIMIT as int),
        ensures
            a.wf(),
            a.rect == (Rect { x: pos.x, y: pos.y, w: ACTOR_WIDTH, h: ACTOR_HEIGHT }),
            a.dir_x == 0,
            a.stun_timer == 0,
            a.powerup_kind == powerup_kind,
            a.powerup_timer == 0,
            a.powerup_cooldown == 0,
            a.speed_mul == NORMAL_FACTOR,
            a.bounce_progress is None,
    {
        Actor {
            rect: Rect { x: pos.x, y: pos.y, w: ACTOR_WIDTH, h: ACTOR_HEIGHT },
            dir_x: 0,
            stun_timer: 0,
            powerup_kind,
            powerup_timer: 0,
            powerup_cooldown: 0,
            speed_mul: NORMAL_FACTOR,
            bounce_dest: Vec2 { x: 0, y: 0 },
            bounce_progress: None,
        }
    }
}

/// A hostile entity.
#[derive(Clone, Copy, Debug)]
pub struct Chaser {
    /// Position and size.
    pub rect: Rect,
    /// Facing sign: the sign of the last nonzero steering direction.
    pub dir_x: i64,
    /// Behavior kind, fixing size, speed effects, bounce distance and
    /// stun duration.
    pub kind: ChaserKind,
    /// Speed multiplier in per-mille, re-applied or reset every frame.
    pub speed_mul: i64,
    /// Destination of the active bounce.
    pub bounce_dest: Vec2,
    /// Progress of the active bounce, when bouncing.
    pub bounce_progress: Option<i64>,
}

impl Chaser {
    /// Well-formed: kind-sized rectangle in range, sign facing, a
    /// normal-or-hastened speed multiplier and a valid bounce record.
    pub open spec fn wf(self) -> bool {
        &&& self.rect.wf()
        &&& self.rect.w == chaser_width(self.kind)
        &&& self.rect.h == chaser_height(self.kind)
        &&& facing_wf(self.dir_x as int)
        &&& (self.speed_mul == NORMAL_FACTOR || self.speed_mul == HASTE_FACTOR)
        &&& self.bounce_dest.within(POS_LIMIT as int)
        &&& progress_wf(self.bounce_progress)
    }

    /// A fresh chaser of the given kind at `pos`.
    pub fn new(pos: Vec2, kind: ChaserKind) -> (c: Chaser)
        requires
            pos.within(POS_LIMIT as int),
        ensures
            c.wf(),
            c.rect == (Rect {
                x: pos.x,
                y: pos.y,
                w: chaser_width(kind),
                h: chaser_height(kind),
            }),
            c.dir_x == 0,
            c.kind == kind,
            c.speed_mul == NORMAL_FACTOR,
            c.bounce_progress is None,
    {
        Chaser {
            rect: Rect { x: pos.x, y: pos.y, w: chaser_width(kind), h: chaser_height(kind) },
            dir_x: 0,
            kind,
            speed_mul: NORMAL_FACTOR,
            bounce_dest: Vec2 { x: 0, y: 0 },
            bounce_progress: None,
        }
    }
}

/// The entity the actor must reach to win; chasers reaching it first lose
/// the level. It flees under the steering module every frame.
#[derive(Clone, Copy, Debug)]
pub struct Goal {
    /// Position and size.
    pub rect: Rect,
    /// Facing sign: the sign of the last nonzero steering direction.
    pub dir_x: i64,
}

impl Goal {
    /// Well-formed: goal-sized rectangle in range and a sign facing.
    pub open spec fn wf(self) -> bool {
        &&& self.rect.wf()
        &&& self.rect.w == GOAL_WIDTH
        &&& self.rect.h == GOAL_HEIGHT
        &&& facing_wf(self.dir_x as int)
    }

    /// A fresh goal at `pos`.
    pub fn new(pos: Vec2) -> (g: Goal)
        requires
            pos.within(POS_LIMIT as int),
        ensures
            g.wf(),
            g.rect == (Rect { x: pos.x, y: pos.y, w: GOAL_WIDTH, h: GOAL_HEIGHT }),
            g.dir_x == 0,
    {
        Goal { rect: Rect { x: pos.x, y: pos.y, w: GOAL_WIDTH, h: GOAL_HEIGHT }, dir_x: 0 }
    }
}

/// A static collidable terrain feature: never moves, never despawns; the
/// kind affects rendering and the hastening proximity effect only.
#[derive(Clone, Copy, Debug)]
pub struct Obstacle {
    /// Position and size.
    pub rect: Rect,
    /// Obstacle kind.
    pub kind: ObstacleKind,
}

impl Obstacle {
    /// Well-formed: kind-sized rectangle in range.
    pub open spec fn wf(self) -> bool {
        &&& self.rect.wf()
        &&& self.rect.w == obstacle_width(self.kind)
        &&& self.rect.h == obstacle_height(self.kind)
    }

    /// A fresh obstacle of the given kind at `pos`.
    pub fn new(pos: Vec2, kind: ObstacleKind) -> (o: Obstacle)
        requires
            pos.within(POS_LIMIT as int),
        ensures
            o.wf(),
            o.rect == (Rect {
                x: pos.x,
                y: pos.y,
                w: obstacle_width(kind),
                h: obstacle_height(kind),
            }),
            o.kind == kind,
    {
        Obstacle {
            rect: Rect { x: pos.x, y: pos.y, w: obstacle_width(kind), h: obstacle_height(kind) },
            kind,
        }
    }
}

/// The normalized per-frame input intent: a direction sign per axis and
/// the power-up trigger.
#[derive(Clone, Copy, Debug)]
pub struct InputIntent {
    /// Horizontal direction sign.
    pub x: i64,
    /// Vertical direction sign.
    pub y: i64,
    /// Whether the power-up trigger is pressed.
    pub trigger: bool,
}

impl InputIntent {
    /// Both axes are direction signs.
    pub open spec fn wf(self) -> bool {
        facing_wf(self.x as int) && facing_wf(self.y as int)
    }
}

/// Initial placement of one chaser.
#[derive(Clone, Copy, Debug)]
pub struct ChaserSpawn {
    /// Top-left spawn position.
    pub pos: Vec2,
    /// Behavior kind.
    pub kind: ChaserKind,
}

/// Initial placement of one obstacle.
#[derive(Clone, Copy, Debug)]
pub struct ObstacleSpawn {
    /// Top-left spawn position.
    pub pos: Vec2,
    /// Obstacle kind.
    pub kind: ObstacleKind,
}

/// Immutable per-level configuration: where every entity starts and which
/// collision rule the level plays with.
#[derive(Clone, Debug)]
pub struct LevelDescriptor {
    /// Actor spawn position.
    pub actor_pos: Vec2,
    /// The actor's power-up kind for this level.
    pub actor_powerup: PowerUpKind,
    /// Goal spawn position.
    pub goal_pos: Vec2,
    /// Chaser placements.
    pub chasers: Vec<ChaserSpawn>,
    /// Obstacle placements.
    pub obstacles: Vec<ObstacleSpawn>,
    /// Collision rule of this level.
    pub rule: CollisionRule,
}

impl LevelDescriptor {
    /// Every placement lies in the stored coordinate range and the entity
    /// counts are within the engine's limits.
    pub open spec fn wf(self) -> bool {
        &&& self.actor_pos.within(POS_LIMIT as int)
        &&& self.goal_pos.within(POS_LIMIT as int)
        &&& forall|i: int|
            0 <= i < self.chasers@.len() ==> self.chasers@[i].pos.within(POS_LIMIT as int)
        &&& forall|i: int|
            0 <= i < self.obstacles@.len() ==> self.obstacles@[i].pos.within(POS_LIMIT as int)
        &&& self.chasers@.len() <= MAX_CHASERS
        &&& self.obstacles@.len() <= MAX_OBSTACLES
    }
}

/// All entities of the level in play. The actor and the goal are
/// singleton fields: their arity is one by construction, not by query.
#[derive(Debug)]
pub struct WorldState {
    /// The player-controlled entity.
    pub actor: Actor,
    /// The single goal entity.
    pub goal: Goal,
    /// The hostile entities still in play.
    pub chasers: Vec<Chaser>,
    /// The static obstacles of the level.
    pub obstacles: Vec<Obstacle>,
    /// The collision rule of this level.
    pub rule: CollisionRule,
}

impl WorldState {
    /// Every entity is well formed and the collection sizes are within
    /// the engine's limits.
    pub open spec fn wf(self) -> bool {
        &&& self.actor.wf()
        &&& self.goal.wf()
        &&& forall|i: int| 0 <= i < self.chasers@.len() ==> self.chasers@[i].wf()
        &&& forall|i: int| 0 <= i < self.obstacles@.len() ==> self.obstacles@[i].wf()
        &&& self.chasers@.len() <= MAX_CHASERS
        &&& self.obstacles@.len() <= MAX_OBSTACLES
    }

    /// The single goal.
    pub fn the_goal(&self) -> (g: &Goal)
        ensures
            g == &self.goal,
    {
        &self.goal
    }

    /// The single actor.
    pub fn the_actor(&self) -> (a: &Actor)
        ensures
            a == &self.actor,
    {
        &self.actor
    }

    /// The plain rectangles of the obstacles, for the integrator.
    pub fn obstacle_rects(&self) -> (rs: Vec<Rect>)
        ensures
            rs@.len() == self.obstacles@.len(),
            forall|i: int| 0 <= i < rs@.len() ==> rs@[i] == self.obstacles@[i].rect,
    {
        let mut rs: Vec<Rect> = Vec::new();
        let mut i: usize = 0;
        while i < self.obstacles.len()
            invariant
                i <= self.obstacles@.len(),
                rs@.len() == i,
                forall|j: int| 0 <= j < i ==> rs@[j] == self.obstacles@[j].rect,
            decreases self.obstacles@.len() - i,
        {
            rs.push(self.obstacles[i].rect);
            i = i + 1;
        }
        rs
    }
}

/// Builds the initial entity set of a level from its descriptor: the
/// actor at its spawn with the level's power-up kind, the goal at its
/// spawn, and one chaser and obstacle per placement, in order.
pub fn enter_level(desc: &LevelDescriptor) -> (w: WorldState)
    requires
        desc.wf(),
    ensures
        w.wf(),
        w.actor.rect.x == desc.actor_pos.x,
        w.actor.rect.y == desc.actor_pos.y,
        w.actor.powerup_kind == desc.actor_powerup,
        w.actor.dir_x == 0,
        w.actor.stun_timer == 0,
        w.actor.powerup_timer == 0,
        w.actor.powerup_cooldown == 0,
        w.actor.speed_mul == NORMAL_FACTOR,
        w.actor.bounce_progress is None,
        w.goal.rect.x == desc.goal_pos.x,
        w.goal.rect.y == desc.goal_pos.y,
        w.goal.dir_x == 0,
        w.chasers@.len() == desc.chasers@.len(),
        forall|i: int|
            #![trigger w.chasers@[i]]
            0 <= i < desc.chasers@.len() ==> {
                &&& w.chasers@[i].kind == desc.chasers@[i].kind
                &&& w.chasers@[i].rect.x == desc.chasers@[i].pos.x
                &&& w.chasers@[i].rect.y == desc.chasers@[i].pos.y
                &&& w.chasers@[i].dir_x == 0
                &&& w.chasers@[i].speed_mul == NORMAL_FACTOR
                &&& w.chasers@[i].bounce_progress is None
            },
        w.obstacles@.len() == desc.obstacles@.len(),
        forall|i: int|
            #![trigger w.obstacles@[i]]
            0 <= i < desc.obstacles@.len() ==> {
                &&& w.obstacles@[i].kind == desc.obstacles@[i].kind
                &&& w.obstacles@[i].rect.x == desc.obstacles@[i].pos.x
                &&& w.obstacles@[i].rect.y == desc.obstacles@[i].pos.y
            },
        w.rule == desc.rule,
{
    let actor = Actor::new(desc.actor_pos, desc.actor_powerup);
    let goal = Goal::new(desc.goal_pos);
    let mut chasers: Vec<Chaser> = Vec::new();
    let mut i: usize = 0;
    while i < desc.chasers.len()
        invariant
            i <= desc.chasers@.len(),
            chasers@.len() == i,
            desc.wf(),
            forall|j: int|
                #![trigger chasers@[j]]
                0 <= j < i ==> chasers@[j].wf() && chasers@[j].kind
                    == desc.chasers@[j].kind && chasers@[j].rect.x == desc.chasers@[j].pos.x
                    && chasers@[j].rect.y == desc.chasers@[j].pos.y && chasers@[j].dir_x == 0
                    && chasers@[j].speed_mul == NORMAL_FACTOR && chasers@[j].bounce_progress
                    is None,
        decreases desc.chasers@.len() - i,
    {
        let s = desc.chasers[i];
        chasers.push(Chaser::new(s.pos, s.kind));
        i = i + 1;
    }
    let mut obstacles: Vec<Obstacle> = Vec::new();
    let mut j: usize = 0;
    while j < desc.obstacles.len()
        invariant
            j <= desc.obstacles@.len(),
            obstacles@.len() == j,
            desc.wf(),
            forall|k: int|
                #![trigger obstacles@[k]]
                0 <= k < j ==> obstacles@[k].wf() && obstacles@[k].kind
                    == desc.obstacles@[k].kind && obstacles@[k].rect.x == desc.obstacles@[k].pos.x
                    && obstacles@[k].rect.y == desc.obstacles@[k].pos.y,
        decreases desc.obstacles@.len() - j,
    {
        let s = desc.obstacles[j];
        obstacles.push(Obstacle::new(s.pos, s.kind));
        j = j + 1;
    }
    WorldState { actor, goal, chasers, obstacles, rule: desc.rule }
}

/// Releases all entities of a level: the chasers and obstacles are
/// dropped in bulk; the actor and goal fields remain but the world is no
/// longer in play.
pub fn teardown(w: &mut WorldState)
    ensures
        final(w).chasers@.len() == 0,
        final(w).obstacles@.len() == 0,
        final(w).actor == old(w).actor,
        final(w).goal == old(w).goal,
        final(w).rule == old(w).rule,
{
    w.chasers = Vec::new();
    w.obstacles = Vec::new();
}

} // verus!

//! The closed sets of entity kinds and their per-kind constant tables:
//! sizes, speeds, proximity ranges, bounce distances and stun durations,
//! all in stored ticks (milli-units) and milliseconds.

use vstd::prelude::*;

verus! {

/// Behavior kind of a hostile entity.
#[derive(Clone, Copy, PartialEq, Eq, Structural, Debug)]
pub enum ChaserKind {
    /// Ignores proximity; always pursues the goal.
    Pursuer,
    /// Pursues the actor instead while the actor is within sensing range.
    Defender,
    /// Slows the actor down while the actor is within sensing range.
    Slower,
}

/// Kind of a static obstacle.
#[derive(Clone, Copy, PartialEq, Eq, Structural, Debug)]
pub enum ObstacleKind {
    /// A statue that hastens any hostile entity that comes near it.
    Statue,
}

/// The actor's power-up ability; one kind is active per actor, chosen at
/// spawn.
#[derive(Clone, Copy, PartialEq, Eq, Structural, Debug)]
pub enum PowerUpKind {
    /// A temporary speed boost.
    SpeedBoost,
    /// Temporary immunity to collision effects.
    Immunity,
}

/// Which actor-versus-chaser collision rule a level plays with.
#[derive(Clone, Copy, PartialEq, Eq, Structural, Debug)]
pub enum CollisionRule {
    /// The chaser despawns and the actor is stunned.
    DespawnStun,
    /// Both entities receive symmetric knock-back; nobody despawns.
    Bounce,
}

/// Actor size, in stored ticks.
pub const ACTOR_WIDTH: i64 = 86_000;

/// Actor size, in stored ticks.
pub const ACTOR_HEIGHT: i64 = 105_000;

/// Actor base speed, in stored ticks per second.
pub const ACTOR_SPEED: i64 = 160_000;

/// Actor speed while the speed-boost power-up is active.
pub const BOOSTED_SPEED: i64 = 256_000;

/// Duration of the speed-boost power-up, in milliseconds.
pub const SPEED_BOOST_TIME: i64 = 2_000;

/// Duration of the immunity power-up, in milliseconds.
pub const IMMUNITY_TIME: i64 = 6_000;

/// Cooldown before a power-up can trigger again, in milliseconds.
pub const POWERUP_COOLDOWN: i64 = 6_000;

/// Goal size, in stored ticks.
pub const GOAL_WIDTH: i64 = 82_000;

/// Goal size, in stored ticks.
pub const GOAL_HEIGHT: i64 = 61_000;

/// Goal speed, in stored ticks per second.
pub const GOAL_SPEED: i64 = 120_000;

/// Chaser base speed, in stored ticks per second.
pub const CHASER_SPEED: i64 = 140_000;

/// Speed multiplier while unaffected, in `UNIT` per-mille.
pub const NORMAL_FACTOR: i64 = 1_000;

/// Speed multiplier a slower applies to the actor, in per-mille.
pub const SLOW_FACTOR: i64 = 750;

/// Speed multiplier a statue applies to a nearby chaser, in per-mille.
pub const HASTE_FACTOR: i64 = 1_500;

/// Upper bound on every countdown timer, in milliseconds.
pub const TIMER_LIMIT: i64 = 60_000;

/// Duration a power-up of the given kind stays active once triggered, in
/// milliseconds.
pub open spec fn spec_powerup_duration(k: PowerUpKind) -> i64 {
    match k {
        PowerUpKind::SpeedBoost => SPEED_BOOST_TIME,
        PowerUpKind::Immunity => IMMUNITY_TIME,
    }
}

/// Duration a power-up of the given kind stays active once triggered.
#[verifier::when_used_as_spec(spec_powerup_duration)]
pub fn powerup_duration(k: PowerUpKind) -> (t: i64)
    ensures
        t == spec_powerup_duration(k),
{
    match k {
        PowerUpKind::SpeedBoost => SPEED_BOOST_TIME,
        PowerUpKind::Immunity => IMMUNITY_TIME,
    }
}

/// Width of a chaser of the given kind.
pub open spec fn spec_chaser_width(k: ChaserKind) -> i64 {
    match k {
        ChaserKind::Pursuer => 113_000,
        ChaserKind::Defender => 120_000,
        ChaserKind::Slower => 116_000,
    }
}

/// Width of a chaser of the given kind.
#[verifier::when_used_as_spec(spec_chaser_width)]
pub fn chaser_width(k: ChaserKind) -> (w: i64)
    ensures
        w == spec_chaser_width(k),
{
    match k {
        ChaserKind::Pursuer => 113_000,
        ChaserKind::Defender => 120_000,
        ChaserKind::Slower => 116_000,
    }
}

/// Height of a chaser of the given kind.
pub open spec fn spec_chaser_height(k: ChaserKind) -> i64 {
    match k {
        ChaserKind::Pursuer => 105_000,
        ChaserKind::Defender => 104_000,
        ChaserKind::Slower => 104_000,
    }
}

/// Height of a chaser of the given kind.
#[verifier::when_used_as_spec(spec_chaser_height)]
pub fn chaser_height(k: ChaserKind) -> (h: i64)
    ensures
        h == spec_chaser_height(k),
{
    match k {
        ChaserKind::Pursuer => 105_000,
        ChaserKind::Defender => 104_000,
        ChaserKind::Slower => 104_000,
    }
}

/// Half-extent of the square sensing range of a chaser of the given kind:
/// zero for pure pursuit, larger for kinds with conditional behavior.
pub open spec fn spec_chaser_proximity(k: ChaserKind) -> i64 {
    match k {
        ChaserKind::Pursuer => 0,
        ChaserKind::Defender => 152_000,
        ChaserKind::Slower => 224_000,
    }
}

/// Half-extent of the square sensing range of a chaser of the given kind.
#[verifier::when_used_as_spec(spec_chaser_proximity)]
pub fn chaser_proximity(k: ChaserKind) -> (r: i64)
    ensures
        r == spec_chaser_proximity(k),
{
    match k {
        ChaserKind::Pursuer => 0,
        ChaserKind::Defender => 152_000,
        ChaserKind::Slower => 224_000,
    }
}

/// Knock-back distance of a collision with a chaser of the given kind.
pub open spec fn spec_chaser_bounce(k: ChaserKind) -> i64 {
    match k {
        ChaserKind::Pursuer => 75_000,
        ChaserKind::Defender => 152_000,
        ChaserKind::Slower => 35_000,
    }
}

/// Knock-back distance of a collision with a chaser of the given kind.
#[verifier::when_used_as_spec(spec_chaser_bounce)]
pub fn chaser_bounce(k: ChaserKind) -> (d: i64)
    ensures
        d == spec_chaser_bounce(k),
{
    match k {
        ChaserKind::Pursuer => 75_000,
        ChaserKind::Defender => 152_000,
        ChaserKind::Slower => 35_000,
    }
}

/// Stun the actor suffers from a collision with a chaser of the given
/// kind under the despawn rule, in milliseconds (longer for a defender
/// than for a pursuer).
pub open spec fn spec_chaser_stun(k: ChaserKind) -> i64 {
    match k {
        ChaserKind::Pursuer => 200,
        ChaserKind::Defender => 400,
        ChaserKind::Slower => 300,
    }
}

/// Stun duration for a collision with a chaser of the given kind.
#[verifier::when_used_as_spec(spec_chaser_stun)]
pub fn chaser_stun(k: ChaserKind) -> (t: i64)
    ensures
        t == spec_chaser_stun(k),
{
    match k {
        ChaserKind::Pursuer => 200,
        ChaserKind::Defender => 400,
        ChaserKind::Slower => 300,
    }
}

/// Width of an obstacle of the given kind.
pub open spec fn spec_obstacle_width(k: ObstacleKind) -> i64 {
    match k {
        ObstacleKind::Statue => 78_000,
    }
}

/// Width of an obstacle of the given kind.
#[verifier::when_used_as_spec(spec_obstacle_width)]
pub fn obstacle_width(k: ObstacleKind) -> (w: i64)
    ensures
        w == spec_obstacle_width(k),
{
    match k {
        ObstacleKind::Statue => 78_000,
    }
}

/// Height of an obstacle of the given kind.
pub open spec fn spec_obstacle_height(k: ObstacleKind) -> i64 {
    match k {
        ObstacleKind::Statue => 115_000,
    }
}

/// Height of an obstacle of the given kind.
#[verifier::when_used_as_spec(spec_obstacle_height)]
pub fn obstacle_height(k: ObstacleKind) -> (h: i64)
    ensures
        h == spec_obstacle_height(k),
{
    match k {
        ObstacleKind::Statue => 115_000,
    }
}

/// Half-extent of the square range within which an obstacle of the given
/// kind hastens hostile entities.
pub open spec fn spec_obstacle_proximity(k: ObstacleKind) -> i64 {
    match k {
        ObstacleKind::Statue => 192_000,
    }
}

/// Half-extent of the hastening range of an obstacle of the given kind.
#[verifier::when_used_as_spec(spec_obstacle_proximity)]
pub fn obstacle_proximity(k: ObstacleKind) -> (r: i64)
    ensures
        r == spec_obstacle_proximity(k),
{
    match k {
        ObstacleKind::Statue => 192_000,
    }
}

} // verus!

use chase_core::geom::Vec2;
use chase_core::kinds::{ChaserKind, CollisionRule, ObstacleKind, PowerUpKind};
use chase_core::phases::{step, FrameOutcome};
use chase_core::world::{enter_level, teardown, ChaserSpawn, InputIntent, LevelDescriptor, ObstacleSpawn};

fn empty_level(rule: CollisionRule) -> LevelDescriptor {
    LevelDescriptor {
        actor_pos: Vec2::new(400_000, 300_000),
        actor_powerup: PowerUpKind::SpeedBoost,
        goal_pos: Vec2::new(400_000, 50_000),
        chasers: Vec::new(),
        obstacles: Vec::new(),
        rule,
    }
}

const NO_INPUT: InputIntent = InputIntent { x: 0, y: 0, trigger: false };

#[test]
fn enter_level_places_the_entities_per_descriptor() {
    let mut desc = empty_level(CollisionRule::Bounce);
    desc.chasers.push(ChaserSpawn { pos: Vec2::new(700_000, 100_000), kind: ChaserKind::Defender });
    desc.obstacles.push(ObstacleSpawn { pos: Vec2::new(200_000, 200_000), kind: ObstacleKind::Statue });
    let w = enter_level(&desc);
    assert_eq!((w.actor.rect.x, w.actor.rect.y), (400_000, 300_000));
    assert_eq!((w.actor.rect.w, w.actor.rect.h), (86_000, 105_000));
    assert_eq!((w.goal.rect.x, w.goal.rect.y), (400_000, 50_000));
    assert_eq!((w.goal.rect.w, w.goal.rect.h), (82_000, 61_000));
    assert_eq!(w.chasers.len(), 1);
    assert_eq!((w.chasers[0].rect.x, w.chasers[0].rect.y), (700_000, 100_000));
    assert_eq!((w.chasers[0].rect.w, w.chasers[0].rect.h), (120_000, 104_000));
    assert_eq!(w.obstacles.len(), 1);
    assert_eq!((w.obstacles[0].rect.w, w.obstacles[0].rect.h), (78_000, 115_000));
    assert!(w.actor.bounce_progress.is_none());
    assert_eq!(w.actor.stun_timer, 0);
}

#[test]
fn teardown_releases_all_entities() {
    let mut desc = empty_level(CollisionRule::Bounce);
    desc.chasers.push(ChaserSpawn { pos: Vec2::new(700_000, 100_000), kind: ChaserKind::Pursuer });
    let mut w = enter_level(&desc);
    teardown(&mut w);
    assert_eq!(w.chasers.len(), 0);
    assert_eq!(w.obstacles.len(), 0);
}

#[test]
fn chasing_the_goal_upward_eventually_wins() {
    // Actor at (400, 300), goal spawned at (400, 50), no hostiles: the
    // goal flees upward at 120 units/s, the actor follows at 160, so the
    // actor closes in and the frame that reaches it reports the win.
    let mut w = enter_level(&empty_level(CollisionRule::Bounce));
    let up = InputIntent { x: 0, y: -1, trigger: false };
    let mut won = false;
    for _ in 0..400 {
        match step(&mut w, up, 16) {
            FrameOutcome::Won => {
                won = true;
                break;
            },
            FrameOutcome::Lost => panic!("lost a level with no hostiles"),
            FrameOutcome::Continue => {},
        }
    }
    assert!(won, "never reached the goal");
    assert!(w.actor.rect.overlaps(&w.goal.rect));
}

#[test]
fn overlapping_pursuer_despawns_and_stuns_under_the_despawn_rule() {
    let mut desc = empty_level(CollisionRule::DespawnStun);
    desc.goal_pos = Vec2::new(-800_000, -800_000);
    desc.chasers.push(ChaserSpawn { pos: Vec2::new(450_000, 300_000), kind: ChaserKind::Pursuer });
    let mut w = enter_level(&desc);
    assert!(w.actor.rect.overlaps(&w.chasers[0].rect));

    let outcome = step(&mut w, NO_INPUT, 0);
    assert_eq!(outcome, FrameOutcome::Continue);
    assert_eq!(w.chasers.len(), 0, "the chaser must despawn");
    assert_eq!(w.actor.stun_timer, 200, "pursuer stun is 0.2 s");

    // A second frame with full directional input moves the actor nowhere
    // while the stun holds.
    let before = w.actor.rect;
    step(&mut w, InputIntent { x: 1, y: 1, trigger: false }, 16);
    assert_eq!((w.actor.rect.x, w.actor.rect.y), (before.x, before.y));
    assert_eq!(w.actor.stun_timer, 184);
}

#[test]
fn overlapping_chaser_triggers_a_symmetric_bounce_under_the_bounce_rule() {
    let mut desc = empty_level(CollisionRule::Bounce);
    desc.goal_pos = Vec2::new(-800_000, -800_000);
    desc.chasers.push(ChaserSpawn { pos: Vec2::new(420_000, 300_000), kind: ChaserKind::Pursuer });
    let mut w = enter_level(&desc);

    let outcome = step(&mut w, NO_INPUT, 0);
    assert_eq!(outcome, FrameOutcome::Continue);
    assert_eq!(w.chasers.len(), 1, "nobody despawns under the bounce rule");
    assert_eq!(w.actor.bounce_progress, Some(0));
    assert_eq!(w.chasers[0].bounce_progress, Some(0));
    // Centers differ on x only, so the knockbacks point in opposite
    // directions along the x axis, by the pursuer's bounce distance.
    assert_eq!((w.actor.bounce_dest.x, w.actor.bounce_dest.y), (325_000, 300_000));
    assert_eq!(
        (w.chasers[0].bounce_dest.x, w.chasers[0].bounce_dest.y),
        (495_000, 300_000),
    );
}

#[test]
fn active_immunity_suppresses_the_bounce_entirely() {
    let mut desc = empty_level(CollisionRule::Bounce);
    desc.actor_powerup = PowerUpKind::Immunity;
    desc.goal_pos = Vec2::new(-800_000, -800_000);
    desc.chasers.push(ChaserSpawn { pos: Vec2::new(420_000, 300_000), kind: ChaserKind::Pursuer });
    let mut w = enter_level(&desc);
    w.actor.powerup_timer = 1_000;

    step(&mut w, NO_INPUT, 0);
    assert!(w.actor.bounce_progress.is_none());
    assert!(w.chasers[0].bounce_progress.is_none());
    assert_eq!(w.chasers.len(), 1);
}

#[test]
fn nearby_slower_slows_the_actor_for_the_frame() {
    let mut desc = empty_level(CollisionRule::Bounce);
    desc.goal_pos = Vec2::new(-800_000, -800_000);
    desc.chasers.push(ChaserSpawn { pos: Vec2::new(600_000, 300_000), kind: ChaserKind::Slower });
    let mut w = enter_level(&desc);

    step(&mut w, NO_INPUT, 0);
    assert_eq!(w.actor.speed_mul, 750);
}

#[test]
fn distant_slower_resets_the_multiplier_to_normal() {
    let mut desc = empty_level(CollisionRule::Bounce);
    desc.goal_pos = Vec2::new(-800_000, -800_000);
    desc.chasers.push(ChaserSpawn { pos: Vec2::new(900_000, 900_000), kind: ChaserKind::Slower });
    let mut w = enter_level(&desc);
    w.actor.speed_mul = 750;

    step(&mut w, NO_INPUT, 0);
    assert_eq!(w.actor.speed_mul, 1_000);
}

#[test]
fn chaser_near_a_statue_is_hastened() {
    let mut desc = empty_level(CollisionRule::Bounce);
    desc.actor_pos = Vec2::new(-500_000, -500_000);
    desc.goal_pos = Vec2::new(-800_000, -800_000);
    desc.chasers.push(ChaserSpawn { pos: Vec2::new(450_000, 300_000), kind: ChaserKind::Pursuer });
    desc.obstacles.push(ObstacleSpawn { pos: Vec2::new(500_000, 300_000), kind: ObstacleKind::Statue });
    let mut w = enter_level(&desc);

    step(&mut w, NO_INPUT, 0);
    assert_eq!(w.chasers[0].speed_mul, 1_500);
}

#[test]
fn chaser_reaching_the_goal_loses_the_level() {
    let mut desc = empty_level(CollisionRule::Bounce);
    desc.chasers.push(ChaserSpawn { pos: Vec2::new(410_000, 60_000), kind: ChaserKind::Pursuer });
    let mut w = enter_level(&desc);
    assert!(w.chasers[0].rect.overlaps(&w.goal.rect));

    let outcome = step(&mut w, NO_INPUT, 0);
    assert_eq!(outcome, FrameOutcome::Lost);
}

#[test]
fn diagonal_movement_with_the_trigger_fires_the_powerup() {
    let mut w = enter_level(&empty_level(CollisionRule::Bounce));
    step(&mut w, InputIntent { x: 1, y: 1, trigger: true }, 16);
    assert_eq!(w.actor.powerup_timer, 1_984, "2 s boost minus this frame");
    assert_eq!(w.actor.powerup_cooldown, 6_000);
    assert_eq!((w.actor.rect.x, w.actor.rect.y), (402_560, 302_560));
}

#[test]
fn defender_in_range_pursues_the_actor() {
    let mut desc = empty_level(CollisionRule::Bounce);
    desc.goal_pos = Vec2::new(500_000, 0);
    desc.chasers.push(ChaserSpawn { pos: Vec2::new(500_000, 300_000), kind: ChaserKind::Defender });
    let mut w = enter_level(&desc);

    // Actor at (400, 300) is inside the defender's sensing square, so the
    // defender heads straight for the actor: due left at 140 units/s.
    step(&mut w, NO_INPUT, 16);
    assert_eq!(w.chasers[0].rect.x, 497_760);
    assert_eq!(w.chasers[0].rect.y, 300_000);
    assert_eq!(w.chasers[0].dir_x, -1);
}

#[test]
fn defender_out_of_range_pursues_the_goal() {
    let mut desc = empty_level(CollisionRule::Bounce);
    desc.goal_pos = Vec2::new(700_000, 0);
    desc.chasers.push(ChaserSpawn { pos: Vec2::new(700_000, 300_000), kind: ChaserKind::Defender });
    let mut w = enter_level(&desc);

    // The actor is outside the sensing square, so the defender heads for
    // the goal: straight up.
    step(&mut w, NO_INPUT, 16);
    assert_eq!(w.chasers[0].rect.x, 700_000);
    assert_eq!(w.chasers[0].rect.y, 297_760);
}

#[test]
fn goal_flees_a_chaser() {
    let mut desc = empty_level(CollisionRule::Bounce);
    desc.actor_pos = Vec2::new(-500_000, -500_000);
    desc.goal_pos = Vec2::new(400_000, 300_000);
    desc.chasers.push(ChaserSpawn { pos: Vec2::new(400_000, 500_000), kind: ChaserKind::Pursuer });
    let mut w = enter_level(&desc);

    // The chaser sits straight below the goal, so the goal flees straight
    // up: 120 units/s for 16 ms is 1.92 units.
    step(&mut w, NO_INPUT, 16);
    assert_eq!(w.goal.rect.x, 400_000);
    assert_eq!(w.goal.rect.y, 298_080);
}

#[test]
fn despawn_rule_removes_every_overlapping_chaser_and_the_last_stun_wins() {
    let mut desc = empty_level(CollisionRule::DespawnStun);
    desc.goal_pos = Vec2::new(-800_000, -800_000);
    desc.chasers.push(ChaserSpawn { pos: Vec2::new(450_000, 300_000), kind: ChaserKind::Pursuer });
    desc.chasers.push(ChaserSpawn { pos: Vec2::new(400_000, 350_000), kind: ChaserKind::Defender });
    desc.chasers.push(ChaserSpawn { pos: Vec2::new(900_000, 900_000), kind: ChaserKind::Slower });
    let mut w = enter_level(&desc);

    step(&mut w, NO_INPUT, 0);
    assert_eq!(w.chasers.len(), 1, "only the distant slower survives");
    assert_eq!(w.chasers[0].kind, ChaserKind::Slower);
    assert_eq!(w.actor.stun_timer, 400, "the defender's stun wins, set last");
}

#[test]
fn immunity_suppresses_the_stun_but_not_the_despawn() {
    let mut desc = empty_level(CollisionRule::DespawnStun);
    desc.actor_powerup = PowerUpKind::Immunity;
    desc.goal_pos = Vec2::new(-800_000, -800_000);
    desc.chasers.push(ChaserSpawn { pos: Vec2::new(450_000, 300_000), kind: ChaserKind::Pursuer });
    let mut w = enter_level(&desc);
    w.actor.powerup_timer = 1_000;

    step(&mut w, NO_INPUT, 0);
    assert_eq!(w.chasers.len(), 0, "the chaser despawns either way");
    assert_eq!(w.actor.stun_timer, 0, "the stun is suppressed while immune");
}

#[test]
fn axial_movement_does_not_fire_the_powerup() {
    let mut w = enter_level(&empty_level(CollisionRule::Bounce));
    step(&mut w, InputIntent { x: 1, y: 0, trigger: true }, 16);
    assert_eq!(w.actor.powerup_timer, 0);
    assert_eq!(w.actor.powerup_cooldown, 0);
}

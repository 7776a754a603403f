use chase_core::bounce::{bounce_dests, bounce_step};
use chase_core::geom::{Rect, Vec2};
use chase_core::pathfind::advance;

#[test]
fn advance_with_zero_dt_leaves_the_rect_unchanged() {
    let mut r = Rect::new(123_000, -456_000, 10_000, 20_000);
    let obstacles = vec![Rect::new(120_000, -460_000, 50_000, 50_000)];
    let before = r;
    advance(&mut r, 160_000, Vec2::new(707, 707), 0, &obstacles, false);
    assert_eq!((r.x, r.y, r.w, r.h), (before.x, before.y, before.w, before.h));
}

#[test]
fn advance_moves_by_speed_direction_dt() {
    let mut r = Rect::new(0, 0, 10_000, 10_000);
    // 160 units/s straight right for one second: 160 units.
    advance(&mut r, 160_000, Vec2::new(1_000, 0), 1_000, &Vec::new(), false);
    assert_eq!((r.x, r.y), (160_000, 0));
    // Diagonal axis-sign input (full UNIT per axis) is not renormalized.
    let mut d = Rect::new(0, 0, 10_000, 10_000);
    advance(&mut d, 100_000, Vec2::new(1_000, -1_000), 500, &Vec::new(), false);
    assert_eq!((d.x, d.y), (50_000, -50_000));
}

#[test]
fn pure_axis_movement_is_not_corrected() {
    // Moving straight right into an obstacle: step 3 of the integrator
    // only corrects diagonal movement, so the rect ends inside.
    let mut r = Rect::new(0, 0, 10_000, 10_000);
    let obstacles = vec![Rect::new(12_000, 0, 30_000, 30_000)];
    advance(&mut r, 100_000, Vec2::new(1_000, 0), 100, &obstacles, false);
    assert_eq!((r.x, r.y), (10_000, 0));
    assert!(r.overlaps(&obstacles[0]));
}

#[test]
fn suppressed_correction_skips_the_obstacle() {
    let mut r = Rect::new(0, 0, 10_000, 10_000);
    let obstacles = vec![Rect::new(5_000, -50_000, 40_000, 100_000)];
    advance(&mut r, 100_000, Vec2::new(707, 707), 100, &obstacles, true);
    assert_eq!((r.x, r.y), (7_070, 7_070));
    assert!(r.overlaps(&obstacles[0]));
}

#[test]
fn diagonal_movement_into_an_obstacle_ends_clear_of_it() {
    // The push-back terminates clear of the obstacle for a range of
    // starting overlap depths up to the obstacle's own size.
    let obstacle = Rect::new(5_000, -50_000, 40_000, 100_000);
    let obstacles = vec![obstacle];
    for depth in [0i64, 1_000, 5_000, 15_000, 30_000] {
        let mut r = Rect::new(depth - 4_000, 0, 10_000, 10_000);
        advance(&mut r, 100_000, Vec2::new(707, 707), 100, &obstacles, false);
        assert!(
            !r.overlaps(&obstacle),
            "still overlapping after correction at depth {}",
            depth
        );
    }
}

#[test]
fn repeated_frames_against_an_obstacle_never_tunnel_through() {
    let obstacle = Rect::new(20_000, -2_000_000, 40_000, 4_000_000);
    let obstacles = vec![obstacle];
    let mut r = Rect::new(0, 0, 10_000, 10_000);
    for _ in 0..60 {
        advance(&mut r, 100_000, Vec2::new(707, 707), 16, &obstacles, false);
        assert!(!r.overlaps(&obstacle));
        // Never past the obstacle's far side: the wall holds.
        assert!(r.x + r.w <= obstacle.x + obstacle.w);
    }
}

#[test]
fn bounce_playback_converges_to_the_destination_and_clears() {
    let mut r = Rect::new(0, 0, 10_000, 10_000);
    let dest = Vec2::new(40_000, -20_000);
    let mut progress: Option<i64> = Some(0);
    let mut last_dist = (dest.x - r.x).abs() + (dest.y - r.y).abs();
    let mut frames = 0;
    while progress.is_some() {
        bounce_step(&mut r, dest, &mut progress);
        let dist = (dest.x - r.x).abs() + (dest.y - r.y).abs();
        assert!(dist <= last_dist, "distance to the destination grew");
        last_dist = dist;
        frames += 1;
        assert!(frames <= 22, "bounce did not clear within 22 frames");
    }
    assert_eq!((r.x, r.y), (dest.x, dest.y));
    // A cleared bounce is never re-triggered by playback alone.
    let settled = r;
    bounce_step(&mut r, dest, &mut progress);
    assert!(progress.is_none());
    assert_eq!((r.x, r.y), (settled.x, settled.y));
}

#[test]
fn bounce_step_without_progress_changes_nothing() {
    let mut r = Rect::new(7_000, 8_000, 10_000, 10_000);
    let mut progress: Option<i64> = None;
    bounce_step(&mut r, Vec2::new(100_000, 100_000), &mut progress);
    assert_eq!((r.x, r.y), (7_000, 8_000));
    assert!(progress.is_none());
}

#[test]
fn bounce_destinations_are_opposite_along_the_center_axis() {
    let a = Rect::new(0, 0, 10_000, 10_000);
    let c = Rect::new(6_000, 0, 10_000, 10_000);
    let (ad, cd) = bounce_dests(&a, &c, 50_000);
    assert_eq!((ad.x, ad.y), (-50_000, 0));
    assert_eq!((cd.x, cd.y), (56_000, 0));
}

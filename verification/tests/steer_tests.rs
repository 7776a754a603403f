use chase_core::geom::Vec2;
use chase_core::steer::{norm_or_zero, steer};

#[test]
fn steering_with_no_targets_is_the_zero_vector() {
    let dir = steer(Vec2::new(100_000, 200_000), &Vec::new(), false);
    assert_eq!((dir.x, dir.y), (0, 0));
    let dir_repel = steer(Vec2::new(100_000, 200_000), &Vec::new(), true);
    assert_eq!((dir_repel.x, dir_repel.y), (0, 0));
}

#[test]
fn coincident_target_contributes_zero_not_a_poisoned_value() {
    let from = Vec2::new(50_000, 50_000);
    // Only a coincident target: the sum is zero, so the result is zero.
    let dir = steer(from, &vec![from], false);
    assert_eq!((dir.x, dir.y), (0, 0));
    // A real target plus a coincident one: same direction as the real one alone.
    let east = Vec2::new(150_000, 50_000);
    let alone = steer(from, &vec![east], false);
    let with_self = steer(from, &vec![east, from], false);
    assert_eq!((alone.x, alone.y), (with_self.x, with_self.y));
}

#[test]
fn single_axis_target_gives_a_full_unit_component() {
    let from = Vec2::new(0, 0);
    let dir = steer(from, &vec![Vec2::new(75_000, 0)], false);
    assert_eq!((dir.x, dir.y), (1_000, 0));
    let dir_up = steer(from, &vec![Vec2::new(0, -75_000)], false);
    assert_eq!((dir_up.x, dir_up.y), (0, -1_000));
}

#[test]
fn repel_negates_the_direction() {
    let from = Vec2::new(0, 0);
    let toward = steer(from, &vec![Vec2::new(30_000, 40_000)], false);
    let away = steer(from, &vec![Vec2::new(30_000, 40_000)], true);
    assert_eq!((away.x, away.y), (-toward.x, -toward.y));
}

#[test]
fn norm_or_zero_of_zero_is_zero() {
    let u = norm_or_zero(Vec2::new(0, 0));
    assert_eq!((u.x, u.y), (0, 0));
}

#[test]
fn norm_or_zero_diagonal_is_scaled_exactly() {
    // |(3000, 4000)| = 5000: components 3000*1000/5000 and 4000*1000/5000.
    let u = norm_or_zero(Vec2::new(3_000, 4_000));
    assert_eq!((u.x, u.y), (600, 800));
    let v = norm_or_zero(Vec2::new(-3_000, 4_000));
    assert_eq!((v.x, v.y), (-600, 800));
}

#[test]
fn opposing_targets_cancel_to_rest() {
    let from = Vec2::new(0, 0);
    let dir = steer(from, &vec![Vec2::new(10_000, 0), Vec2::new(-10_000, 0)], false);
    assert_eq!((dir.x, dir.y), (0, 0));
}

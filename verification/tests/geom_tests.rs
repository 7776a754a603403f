use chase_core::geom::{lerp, Rect, Vec2};
use chase_core::nums::isqrt;

#[test]
fn overlaps_is_symmetric() {
    let a = Rect::new(0, 0, 10_000, 10_000);
    let b = Rect::new(5_000, 5_000, 10_000, 10_000);
    assert_eq!(a.overlaps(&b), b.overlaps(&a));
    assert!(a.overlaps(&b));
    let c = Rect::new(50_000, 50_000, 10_000, 10_000);
    assert_eq!(a.overlaps(&c), c.overlaps(&a));
    assert!(!a.overlaps(&c));
}

#[test]
fn rect_with_positive_extent_overlaps_itself() {
    let a = Rect::new(-3_000, 7_000, 1, 2);
    assert!(a.overlaps(&a));
    let zero_width = Rect::new(0, 0, 0, 5_000);
    assert!(!zero_width.overlaps(&zero_width));
}

#[test]
fn touching_edges_do_not_overlap_but_intersect_reports_zero_extent() {
    let a = Rect::new(0, 0, 10_000, 10_000);
    let b = Rect::new(10_000, 0, 10_000, 10_000);
    assert!(!a.overlaps(&b));
    let i = a.intersect(&b).unwrap();
    assert_eq!(i.x, 10_000);
    assert_eq!(i.w, 0);
    assert_eq!(i.h, 10_000);
}

#[test]
fn intersect_none_iff_no_overlap_for_separated_rects() {
    let a = Rect::new(0, 0, 10_000, 10_000);
    let b = Rect::new(20_000, 0, 10_000, 10_000);
    assert!(!a.overlaps(&b));
    assert!(a.intersect(&b).is_none());
    let c = Rect::new(5_000, 5_000, 10_000, 10_000);
    assert!(a.overlaps(&c));
    assert!(a.intersect(&c).is_some());
}

#[test]
fn intersection_region_is_exact() {
    let a = Rect::new(0, 0, 10_000, 8_000);
    let b = Rect::new(4_000, 2_000, 10_000, 10_000);
    let i = a.intersect(&b).unwrap();
    assert_eq!((i.x, i.y, i.w, i.h), (4_000, 2_000, 6_000, 6_000));
}

#[test]
fn center_and_point() {
    let a = Rect::new(400_000, 300_000, 86_000, 105_000);
    let p = a.point();
    assert_eq!((p.x, p.y), (400_000, 300_000));
    let c = a.center();
    assert_eq!((c.x, c.y), (443_000, 352_500));
}

#[test]
fn lerp_interpolates_componentwise() {
    let p0 = Vec2::new(0, 0);
    let p1 = Vec2::new(10_000, -6_000);
    let half = lerp(p0, p1, 500);
    assert_eq!((half.x, half.y), (5_000, -3_000));
    let full = lerp(p0, p1, 1_000);
    assert_eq!((full.x, full.y), (10_000, -6_000));
    let none = lerp(p0, p1, 0);
    assert_eq!((none.x, none.y), (0, 0));
}

#[test]
fn isqrt_exact_values() {
    assert_eq!(isqrt(0), 0);
    assert_eq!(isqrt(1), 1);
    assert_eq!(isqrt(3), 1);
    assert_eq!(isqrt(4), 2);
    assert_eq!(isqrt(99), 9);
    assert_eq!(isqrt(100), 10);
    assert_eq!(isqrt(1_000_000_000_000), 1_000_000);
    assert_eq!(isqrt(u64::MAX as u128), 4_294_967_295);
}

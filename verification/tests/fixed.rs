use flappy_crab::fixed::{
    clamp, floor_div, minus, narrow, plus, scale_by_inverse, times, wide_product,
};
use flappy_crab::geometry::{Point2, Rect};

#[test]
fn sums_saturate_at_both_ends() {
    assert_eq!(plus(2, 3), 5);
    assert_eq!(plus(i64::MAX, 1), i64::MAX);
    assert_eq!(plus(i64::MIN, -1), i64::MIN);
    assert_eq!(minus(2, 3), -1);
    assert_eq!(minus(i64::MIN, 1), i64::MIN);
    assert_eq!(minus(0, i64::MIN), i64::MAX);
}

#[test]
fn narrow_keeps_what_fits() {
    assert_eq!(narrow(-5), -5);
    assert_eq!(narrow(i64::MAX as i128 + 1), i64::MAX);
    assert_eq!(narrow(i64::MIN as i128 - 1), i64::MIN);
    assert_eq!(narrow(i128::MAX), i64::MAX);
}

#[test]
fn quotients_round_down() {
    assert_eq!(floor_div(7, 2), 3);
    assert_eq!(floor_div(-7, 2), -4);
    assert_eq!(floor_div(-8, 2), -4);
    assert_eq!(floor_div(0, 5), 0);
}

#[test]
fn products_are_fixed_point() {
    assert_eq!(times(26_000, 1_500), 39_000);
    assert_eq!(times(12_000, -1_000), -12_000);
    assert_eq!(times(1, 1), 0);
    assert_eq!(times(-1, 1), -1);
    assert_eq!(times(i64::MAX, i64::MAX), i64::MAX);
    assert_eq!(wide_product(i64::MIN, i64::MIN), 1i128 << 126);
}

#[test]
fn scaling_by_the_inverse_of_a_frame() {
    assert_eq!(scale_by_inverse(250, 1_000_000_000), 250);
    assert_eq!(scale_by_inverse(250, 16_666_667), 14_999);
    assert_eq!(scale_by_inverse(-250, 16_666_667), -15_000);
    assert_eq!(scale_by_inverse(250, 2_000_000_000), 125);
    assert_eq!(scale_by_inverse(1, 2_000_000_000), 0);
    assert_eq!(scale_by_inverse(-1, 2_000_000_000), -1);
    assert_eq!(scale_by_inverse(i64::MAX, 1), i64::MAX);
    assert_eq!(scale_by_inverse(i64::MIN, 1), i64::MIN);
}

#[test]
fn clamp_holds_a_value_in_its_range() {
    assert_eq!(clamp(5, 0, 10), 5);
    assert_eq!(clamp(-5, 0, 10), 0);
    assert_eq!(clamp(15, 0, 10), 10);
    assert_eq!(clamp(0, 0, 10), 0);
    assert_eq!(clamp(10, 0, 10), 10);
    assert_eq!(clamp(5, 10, 0), 10);
}

#[test]
fn rectangles_that_touch_overlap() {
    let a = Rect::new(0, 0, 10, 10);
    assert!(a.overlaps(&Rect::new(5, 5, 10, 10)));
    assert!(a.overlaps(&Rect::new(10, 10, 5, 5)));
    assert!(a.overlaps(&Rect::new(-5, -5, 5, 5)));
    assert!(a.overlaps(&a));
    assert!(!a.overlaps(&Rect::new(11, 0, 5, 5)));
    assert!(!a.overlaps(&Rect::new(0, 11, 5, 5)));
    assert!(!a.overlaps(&Rect::new(-6, 0, 5, 5)));
    assert!(!a.overlaps(&Rect::new(0, -6, 5, 5)));
}

#[test]
fn overlap_is_exact_at_the_ends_of_the_range() {
    let far = Rect::new(i64::MAX, i64::MAX, i64::MAX, i64::MAX);
    let near = Rect::new(0, 0, 1, 1);
    assert!(!near.overlaps(&far));
    assert!(far.overlaps(&far));
    let wide = Rect::new(i64::MIN, i64::MIN, i64::MAX, i64::MAX);
    assert!(!wide.overlaps(&near));
}

#[test]
fn a_rectangle_of_negative_height_keeps_its_edges() {
    // Its bottom edge lies above its top edge: another rectangle overlaps
    // it only by reaching over both.
    let flipped = Rect::new(0, 100, 10, -20);
    assert!(flipped.overlaps(&Rect::new(0, 70, 10, 40)));
    assert!(!flipped.overlaps(&Rect::new(0, 90, 10, 5)));
}

#[test]
fn moving_and_scaling_a_rectangle() {
    let mut r = Rect::new(1, 2, 30_000, 40_000);
    r.move_to(Point2::new(-7, 9));
    assert_eq!(r, Rect::new(-7, 9, 30_000, 40_000));
    r.scale(1_000, -1_000);
    assert_eq!(r, Rect::new(-7, 9, 30_000, -40_000));
    r.scale(500, 2_000);
    assert_eq!(r, Rect::new(-7, 9, 15_000, -80_000));
}

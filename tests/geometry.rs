use pacman::geometry::{clamp_to_bounds, is_axis_aligned, is_within_reach};
use pacman::{is_point_in_rect, play_again_button, Point, Rect};

fn p(x: u32, y: u32) -> Point {
    Point { x, y }
}

#[test]
fn clamp_keeps_one_cell_margin() {
    assert_eq!(clamp_to_bounds(25), 30);
    assert_eq!(clamp_to_bounds(-7), 30);
    assert_eq!(clamp_to_bounds(30), 30);
    assert_eq!(clamp_to_bounds(300), 300);
    assert_eq!(clamp_to_bounds(570), 570);
    assert_eq!(clamp_to_bounds(575), 570);
}

#[test]
fn alignment_tolerance_is_a_tenth_of_a_cell() {
    assert!(is_axis_aligned(0));
    assert!(is_axis_aligned(2));
    assert!(!is_axis_aligned(3));
    assert!(!is_axis_aligned(15));
    assert!(!is_axis_aligned(27));
    assert!(is_axis_aligned(28));
    assert!(is_axis_aligned(30));
    assert!(!is_axis_aligned(45));
    assert!(is_axis_aligned(570));
}

#[test]
fn reach_is_strictly_below_half_a_cell() {
    assert!(is_within_reach(p(30, 30), p(30, 30)));
    assert!(is_within_reach(p(30, 300), p(44, 300)));
    assert!(!is_within_reach(p(30, 300), p(45, 300)));
    assert!(!is_within_reach(p(45, 300), p(30, 300)));
    // 9 and 12 pixels apart: exactly 15 away.
    assert!(!is_within_reach(p(30, 300), p(39, 312)));
    assert!(is_within_reach(p(30, 300), p(39, 311)));
    assert!(!is_within_reach(p(0, 0), p(u32::MAX, u32::MAX)));
}

#[test]
fn rectangle_containment_includes_edges() {
    let r = Rect { x: 10, y: 20, width: 5, height: 6 };
    assert!(is_point_in_rect(p(10, 20), r));
    assert!(is_point_in_rect(p(15, 26), r));
    assert!(is_point_in_rect(p(12, 23), r));
    assert!(!is_point_in_rect(p(9, 23), r));
    assert!(!is_point_in_rect(p(16, 23), r));
    assert!(!is_point_in_rect(p(12, 19), r));
    assert!(!is_point_in_rect(p(12, 27), r));
}

#[test]
fn play_again_button_is_centred_below_the_middle() {
    assert_eq!(play_again_button(), Rect { x: 300, y: 360, width: 200, height: 50 });
}

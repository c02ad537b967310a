use euc::rasterizer::lines::{line_pixels, major_axis_is_x, to_pixels};
use euc::rasterizer::triangles::{clamp_bounds, face_action, rev, row_span, uses_row_bounds};
use euc::{CullMode, FaceAction};
use std::cmp::Ordering;

#[test]
fn cull_mode_defaults_to_back() {
    assert_eq!(CullMode::default(), CullMode::Back);
}

#[test]
fn back_face_culling_keeps_exactly_one_orientation() {
    // A counter-clockwise triangle and its reverse: the reverse is culled.
    assert_eq!(face_action(CullMode::Back, Some(Ordering::Greater)), FaceAction::Reverse);
    assert_eq!(face_action(CullMode::Back, Some(Ordering::Less)), FaceAction::Cull);
    assert_eq!(face_action(CullMode::Back, Some(Ordering::Equal)), FaceAction::Reverse);
    assert_eq!(face_action(CullMode::Back, None), FaceAction::Keep);
}

#[test]
fn front_face_culling_and_no_culling() {
    assert_eq!(face_action(CullMode::Front, Some(Ordering::Greater)), FaceAction::Cull);
    assert_eq!(face_action(CullMode::Front, Some(Ordering::Less)), FaceAction::Keep);
    assert_eq!(face_action(CullMode::Disabled, Some(Ordering::Less)), FaceAction::Keep);
    assert_eq!(face_action(CullMode::Disabled, Some(Ordering::Greater)), FaceAction::Reverse);
}

#[test]
fn rev_reverses_three_items() {
    assert_eq!(rev([1, 2, 3]), [3, 2, 1]);
    assert_eq!(rev([String::from("a"), String::from("b"), String::from("c")]), ["c", "b", "a"]);
}

#[test]
fn bounds_are_clamped_to_the_tile() {
    let (min, max) = clamp_bounds([0, 5], [700, 40], [0, 10], [640, 20]);
    assert_eq!(min, [0, 10]);
    assert_eq!(max, [640, 20]);
    let (min, max) = clamp_bounds([10, 12], [20, 14], [0, 0], [640, 480]);
    assert_eq!(min, [10, 12]);
    assert_eq!(max, [20, 14]);
}

#[test]
fn row_bounds_start_at_the_area_threshold() {
    assert!(!uses_row_bounds([0, 0], [127, 1]));
    assert!(uses_row_bounds([0, 0], [128, 1]));
    assert!(uses_row_bounds([3, 3], [19, 11]));
    assert!(!uses_row_bounds([3, 3], [3, 1000]));
}

#[test]
fn row_span_keeps_edges_inside_the_box() {
    assert_eq!(row_span(10, 50, Some(20), Some(30)), (20, 30));
    assert_eq!(row_span(10, 50, Some(5), Some(60)), (10, 50));
    assert_eq!(row_span(10, 50, None, Some(50)), (10, 50));
    assert_eq!(row_span(10, 50, Some(49), None), (49, 50));
}

#[test]
fn major_axis_follows_the_longer_extent() {
    assert!(major_axis_is_x([0, 0], [10, 3]));
    assert!(!major_axis_is_x([0, 0], [3, -10]));
    assert!(!major_axis_is_x([0, 0], [5, 5]));
    assert!(major_axis_is_x([isize::MIN, 0], [isize::MAX, 0]));
}

#[test]
fn line_pixels_stay_in_the_tile() {
    let px = line_pixels([-5, 2], [20, 2], [-5, 2], [21, 3], [0, 0], [10, 10]);
    assert_eq!(px.len(), 10);
    assert!(px.iter().all(|p| p[0] < 10 && p[1] == 2));
    assert_eq!(px[0], [0, 2]);
    let diagonal = line_pixels([0, 0], [4, 4], [0, 0], [5, 5], [0, 0], [100, 100]);
    assert_eq!(diagonal, vec![[0, 0], [1, 1], [2, 2], [3, 3]]);
    let outside = line_pixels([0, 50], [10, 50], [0, 50], [11, 51], [0, 0], [10, 10]);
    assert!(outside.is_empty());
}

#[test]
fn points_become_pixels_in_order() {
    assert_eq!(to_pixels(&vec![(3, 4), (0, 0), (7, 1)]), vec![[3, 4], [0, 0], [7, 1]]);
    assert!(to_pixels(&Vec::new()).is_empty());
}

#[test]
fn steep_line_follows_y() {
    let px = line_pixels([2, 0], [3, 6], [2, 0], [4, 7], [0, 0], [10, 10]);
    assert_eq!(px.len(), 6);
    assert_eq!(px[0], [2, 0]);
    assert!(px.windows(2).all(|w| w[1][1] == w[0][1] + 1));
}

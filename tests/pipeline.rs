use euc::pipeline::{blit_fragment, render_size};
use euc::{AaMode, Buffer2d, DepthMode, PixelMode, Target, YAxisDirection};
use std::cmp::Ordering;

#[test]
fn depth_modes_use_depth() {
    assert!(!DepthMode::none().uses_depth());
    assert!(DepthMode::less_write().uses_depth());
    assert!(DepthMode::greater_pass().uses_depth());
    assert!(DepthMode::less_pass().uses_depth());
    assert!(DepthMode::greater_write().write);
}

#[test]
fn depth_test_compares_with_the_stored_depth() {
    let less = DepthMode::less_write();
    assert!(less.passes(Some(Ordering::Less)));
    assert!(!less.passes(Some(Ordering::Equal)));
    assert!(!less.passes(Some(Ordering::Greater)));
    assert!(!less.passes(None));
    assert!(DepthMode::none().passes(None));
    assert!(DepthMode::greater_pass().passes(Some(Ordering::Greater)));
}

#[test]
fn pixel_mode_defaults_to_write() {
    assert!(PixelMode::default().write);
    assert!(!PixelMode::pass().write);
}

#[test]
fn y_flip_only_for_up() {
    assert!(YAxisDirection::Up.flips_y());
    assert!(!YAxisDirection::Down.flips_y());
}

#[test]
fn msaa_level_is_capped_and_zero_matches_disabled() {
    assert_eq!(AaMode::Disabled.msaa_level(), 0);
    assert_eq!(AaMode::Msaa { level: 0 }.msaa_level(), 0);
    assert_eq!(AaMode::Msaa { level: 3 }.msaa_level(), 3);
    assert_eq!(AaMode::Msaa { level: 40 }.msaa_level(), 6);
}

#[test]
fn render_size_prefers_the_pixel_target() {
    assert_eq!(render_size(false, DepthMode::none(), [4, 4], [8, 8]), None);
    assert_eq!(render_size(true, DepthMode::none(), [4, 4], [8, 8]), Some([4, 4]));
    assert_eq!(render_size(false, DepthMode::less_write(), [4, 4], [8, 8]), Some([8, 8]));
    assert_eq!(render_size(true, DepthMode::less_write(), [6, 5], [6, 5]), Some([6, 5]));
}

#[test]
fn near_fragment_occludes_far_fragment() {
    let mut color = Buffer2d::<u32>::new([2, 2], 0);
    let mut depth = Buffer2d::<f32>::new([2, 2], 1.0);
    let mode = DepthMode::less_write();
    for y in 0..2 {
        for x in 0..2 {
            // The near triangle (z = 0.0) is drawn first ...
            let stored = depth.read_exclusive_unchecked(x, y);
            assert!(blit_fragment(&mut color, &mut depth, x, y, mode, 0.0f32.partial_cmp(&stored), 0.0, Some(0xFF0000FF)));
        }
    }
    for y in 0..2 {
        for x in 0..2 {
            // ... and the far one (z = 0.5) second.
            let stored = depth.read_exclusive_unchecked(x, y);
            assert!(!blit_fragment(&mut color, &mut depth, x, y, mode, 0.5f32.partial_cmp(&stored), 0.5, Some(0x00FF00FF)));
        }
    }
    assert_eq!(color.raw(), &[0xFF0000FF; 4][..]);
    assert_eq!(depth.raw(), &[0.0f32; 4][..]);
}

#[test]
fn unordered_depth_never_passes_a_test() {
    let mut color = Buffer2d::<u32>::new([1, 1], 3);
    let mut depth = Buffer2d::<f32>::new([1, 1], f32::NAN);
    let stored = depth.read_exclusive_unchecked(0, 0);
    assert!(!blit_fragment(&mut color, &mut depth, 0, 0, DepthMode::less_write(), 0.25f32.partial_cmp(&stored), 0.25, Some(9)));
    assert_eq!(color.raw(), &[3][..]);
    assert!(blit_fragment(&mut color, &mut depth, 0, 0, DepthMode::none(), None, 0.25, Some(9)));
    assert_eq!(color.raw(), &[9][..]);
    assert!(depth.raw()[0].is_nan());
}

#[test]
fn repeated_fragment_changes_nothing_more() {
    let mut color = Buffer2d::<u32>::new([1, 1], 0);
    let mut depth = Buffer2d::<u32>::new([1, 1], 10);
    let mode = DepthMode::less_write();
    for _ in 0..3 {
        let stored = depth.read_exclusive_unchecked(0, 0);
        blit_fragment(&mut color, &mut depth, 0, 0, mode, 4u32.partial_cmp(&stored), 4, Some(7));
    }
    assert_eq!(color.raw(), &[7][..]);
    assert_eq!(depth.raw(), &[4][..]);
}

#[test]
fn pass_modes_leave_depth_alone() {
    let mut color = Buffer2d::<u32>::new([1, 1], 0);
    let mut depth = Buffer2d::<u32>::new([1, 1], 10);
    assert!(blit_fragment(&mut color, &mut depth, 0, 0, DepthMode::less_pass(), Some(Ordering::Less), 4, None));
    assert_eq!(depth.raw(), &[10][..]);
    assert_eq!(color.raw(), &[0][..]);
}

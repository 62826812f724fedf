use gpuiflow::background::{grid_offsets, BackgroundProps, BackgroundVariant};

#[test]
fn default_background_is_grey_dots() {
    let props = BackgroundProps::default();
    assert_eq!(props.variant, BackgroundVariant::Dots);
    assert_eq!(props.gap, 20);
    assert_eq!(props.color, 0x666666);
    assert_eq!(props.size, 1);
}

#[test]
fn grid_lines_reach_the_far_side() {
    assert_eq!(grid_offsets(100, 20), vec![0, 20, 40, 60, 80, 100]);
    assert_eq!(grid_offsets(99, 20), vec![0, 20, 40, 60, 80]);
    assert_eq!(grid_offsets(0, 20), vec![0]);
    assert_eq!(grid_offsets(19, 20), vec![0]);
    assert_eq!(grid_offsets(5, 1), vec![0, 1, 2, 3, 4, 5]);
    assert_eq!(grid_offsets(u32::MAX, u32::MAX), vec![0, u32::MAX]);
}

#[test]
fn no_grid_without_gap() {
    assert_eq!(grid_offsets(100, 0), Vec::<u32>::new());
}

#[test]
fn dot_radius_is_one_at_least() {
    let mut props = BackgroundProps::default();
    assert_eq!(props.dot_radius(), 1);
    props.size = 0;
    assert_eq!(props.dot_radius(), 1);
    props.size = 4;
    assert_eq!(props.dot_radius(), 4);
}

#[test]
fn cross_arm_is_three_sizes() {
    let mut props = BackgroundProps::default();
    assert_eq!(props.cross_arm(), 3);
    props.size = 5;
    assert_eq!(props.cross_arm(), 15);
    props.size = u32::MAX;
    assert_eq!(props.cross_arm(), 3 * (u32::MAX as u64));
}

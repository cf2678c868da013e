use yatd::space::{Axis, Orientation, Transform, Vec3, AXIS_UNIT, UNIT};

#[test]
fn units_are_a_million_and_a_thousand() {
    assert_eq!(UNIT, 1_000_000);
    assert_eq!(AXIS_UNIT, 1_000);
}

#[test]
fn new_and_splat_fill_the_components() {
    assert_eq!(Vec3::new(1, -2, 3), Vec3 { x: 1, y: -2, z: 3 });
    assert_eq!(Vec3::splat(7), Vec3 { x: 7, y: 7, z: 7 });
}

#[test]
fn checked_shift_adds_step_times_direction() {
    let start = Vec3::new(1, 2, 3);
    let dir = Vec3::new(10, -20, 30);
    assert_eq!(start.checked_shift(&dir, 5), Some(Vec3::new(51, -98, 153)));
    assert_eq!(start.checked_shift(&dir, 0), Some(start));
}

#[test]
fn checked_shift_reaches_the_last_value() {
    let start = Vec3::new(i64::MAX - 5, i64::MIN + 5, 0);
    let dir = Vec3::new(1, -1, 0);
    assert_eq!(start.checked_shift(&dir, 5), Some(Vec3::new(i64::MAX, i64::MIN, 0)));
}

#[test]
fn checked_shift_refuses_what_does_not_fit() {
    let dir = Vec3::new(1, -1, 1);
    assert_eq!(Vec3::new(i64::MAX, 0, 0).checked_shift(&dir, 1), None);
    assert_eq!(Vec3::new(0, i64::MIN, 0).checked_shift(&dir, 1), None);
    assert_eq!(Vec3::new(0, 0, 1).checked_shift(&dir, u64::MAX), None);
    let far = Vec3::new(i64::MIN, i64::MAX, i64::MIN);
    assert_eq!(Vec3::new(0, 0, 0).checked_shift(&far, u64::MAX), None);
}

#[test]
fn axis_gives_its_direction_and_the_opposite() {
    let axis = Axis { x: 600, y: -800, z: 0 };
    assert_eq!(axis.vec(), Vec3::new(600, -800, 0));
    assert_eq!(axis.neg_vec(), Vec3::new(-600, 800, 0));
}

#[test]
fn axis_negates_the_smallest_component() {
    let axis = Axis { x: i32::MIN, y: i32::MAX, z: 0 };
    assert_eq!(axis.vec(), Vec3::new(-2_147_483_648, 2_147_483_647, 0));
    assert_eq!(axis.neg_vec(), Vec3::new(2_147_483_648, -2_147_483_647, 0));
}

#[test]
fn identity_frame_has_the_worlds_axes() {
    let frame = Orientation::identity();
    assert_eq!(frame.right(), Vec3::new(1000, 0, 0));
    assert_eq!(frame.left(), Vec3::new(-1000, 0, 0));
    assert_eq!(frame.up(), Vec3::new(0, 1000, 0));
    assert_eq!(frame.down(), Vec3::new(0, -1000, 0));
    assert_eq!(frame.back(), Vec3::new(0, 0, 1000));
    assert_eq!(frame.forward(), Vec3::new(0, 0, -1000));
}

#[test]
fn frame_directions_follow_its_axes() {
    let frame = Orientation {
        x_axis: Axis { x: 1, y: 2, z: 3 },
        y_axis: Axis { x: 4, y: 5, z: 6 },
        z_axis: Axis { x: 7, y: 8, z: 9 },
    };
    assert_eq!(frame.right(), Vec3::new(1, 2, 3));
    assert_eq!(frame.left(), Vec3::new(-1, -2, -3));
    assert_eq!(frame.up(), Vec3::new(4, 5, 6));
    assert_eq!(frame.down(), Vec3::new(-4, -5, -6));
    assert_eq!(frame.back(), Vec3::new(7, 8, 9));
    assert_eq!(frame.forward(), Vec3::new(-7, -8, -9));
}

#[test]
fn transform_from_translation_keeps_life_size() {
    let t = Transform::from_translation(Vec3::new(1, 2, 3));
    assert_eq!(t.translation, Vec3::new(1, 2, 3));
    assert_eq!(t.scale, Vec3::splat(UNIT));
}

#[test]
fn transform_with_scale_replaces_the_scale_only() {
    let t = Transform::from_translation(Vec3::new(1, 2, 3)).with_scale(Vec3::splat(1_800_000));
    assert_eq!(t.translation, Vec3::new(1, 2, 3));
    assert_eq!(t.scale, Vec3::new(1_800_000, 1_800_000, 1_800_000));
}

#[test]
fn default_transform_is_at_the_origin() {
    let t = Transform::default();
    assert_eq!(t, Transform { translation: Vec3::new(0, 0, 0), scale: Vec3::splat(UNIT) });
}

use nested_backend::geometry::{
    invert, swap_flipped_quarter_turns, transform_delta, transform_size, Point,
    RawAbsolutePosition, Size, Transform, FX_ONE,
};

fn raw(x: i64, y: i64, t: Transform, w: i32, h: i32) -> RawAbsolutePosition {
    RawAbsolutePosition::new(x, y, t, Size { w, h })
}

#[test]
fn identity_position_is_unchanged() {
    let size = Size { w: 640, h: 480 };
    for &(x, y) in &[(0i64, 0i64), (1, 1), (256, 512), (639 * 256, 479 * 256), (100, 0)] {
        let p = RawAbsolutePosition::new(x, y, Transform::Normal, size).position();
        assert_eq!(p, Point { x, y });
    }
}

#[test]
fn rotate90_position() {
    // Surface 4x3: fixed-point bounds are (3*256, 2*256).
    let p = raw(256, 128, Transform::Rotate90, 4, 3).position();
    assert_eq!(p, Point { x: 2 * 256 - 128, y: 256 });
}

#[test]
fn rotate180_maps_corners() {
    let p = raw(0, 0, Transform::Rotate180, 4, 3).position();
    assert_eq!(p, Point { x: 3 * 256, y: 2 * 256 });
    let q = raw(3 * 256, 2 * 256, Transform::Rotate180, 4, 3).position();
    assert_eq!(q, Point { x: 0, y: 0 });
}

#[test]
fn flipped_mirrors_x_only() {
    let p = raw(256, 128, Transform::Flipped, 4, 3).position();
    assert_eq!(p, Point { x: 3 * 256 - 256, y: 128 });
}

#[test]
fn transform_size_swaps_for_quarter_turns() {
    let s = Size { w: 640, h: 480 };
    assert_eq!(transform_size(Transform::Normal, s), s);
    assert_eq!(transform_size(Transform::Rotate90, s), Size { w: 480, h: 640 });
    assert_eq!(transform_size(Transform::Rotate180, s), s);
    assert_eq!(transform_size(Transform::Flipped270, s), Size { w: 480, h: 640 });
}

#[test]
fn invert_rotations_and_flips() {
    assert_eq!(invert(Transform::Rotate90), Transform::Rotate270);
    assert_eq!(invert(Transform::Rotate270), Transform::Rotate90);
    assert_eq!(invert(Transform::Rotate180), Transform::Rotate180);
    assert_eq!(invert(Transform::Flipped90), Transform::Flipped90);
    assert_eq!(invert(Transform::Normal), Transform::Normal);
}

#[test]
fn flipped_quarter_turns_swap() {
    assert_eq!(
        swap_flipped_quarter_turns(Transform::Flipped90),
        Transform::Flipped270
    );
    assert_eq!(
        swap_flipped_quarter_turns(Transform::Flipped270),
        Transform::Flipped90
    );
    assert_eq!(swap_flipped_quarter_turns(Transform::Rotate90), Transform::Rotate90);
}

#[test]
fn delta_rotation_per_transform() {
    let d = (10, 20);
    assert_eq!(transform_delta(Transform::Normal, d.0, d.1), (10, 20));
    assert_eq!(transform_delta(Transform::Rotate90, d.0, d.1), (-20, 10));
    assert_eq!(transform_delta(Transform::Rotate180, d.0, d.1), (-10, -20));
    assert_eq!(transform_delta(Transform::Rotate270, d.0, d.1), (20, -10));
    assert_eq!(transform_delta(Transform::Flipped, d.0, d.1), (-10, 20));
    // The flipped quarter turns act as each other.
    assert_eq!(transform_delta(Transform::Flipped90, d.0, d.1), (20, 10));
    assert_eq!(transform_delta(Transform::Flipped180, d.0, d.1), (10, -20));
    assert_eq!(transform_delta(Transform::Flipped270, d.0, d.1), (-20, -10));
}

#[test]
fn rescaling_between_surface_and_logical_widths() {
    // Surface 3 px wide, position at pixel 2 (the right edge of a 3-px box
    // is bound 2*256); rescaled to a width of 300.
    let r = raw(2 * 256, 0, Transform::Normal, 3, 3);
    assert_eq!(r.x_transformed(300), 2 * 256 * 300 / 3);
    assert_eq!(r.y_transformed(300), 0);
}

#[test]
fn bounds_reports() {
    let r = raw(0, 0, Transform::Rotate90, 640, 480);
    assert_eq!(r.physical_bounds(), Size { w: 639, h: 479 });
    assert_eq!(r.logical_bounds(), Size { w: 480, h: 640 });
}

#[test]
fn fixed_point_unit_is_the_wire_scale() {
    assert_eq!(FX_ONE, 256);
    let r = raw(5 * FX_ONE, 7 * FX_ONE, Transform::Normal, 64, 64);
    assert_eq!(r.x(), 5 * 256);
    assert_eq!(r.y(), 7 * 256);
}

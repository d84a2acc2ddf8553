use mesh_bake::geom::Quat;
use mesh_bake::geom::Transform;
use mesh_bake::geom::Vec3;

fn v(x: i64, y: i64, z: i64) -> Vec3 {
    Vec3 { x, y, z }
}

#[test]
fn identity_rotation_is_detected() {
    let q = Quat { x: 0, y: 0, z: 0, w: 1 };
    assert!(q.is_near_identity());
    let q = Quat { x: 0, y: 0, z: 0, w: 7 };
    assert!(q.is_near_identity());
    let q = Quat { x: 1, y: 0, z: 0, w: 1 };
    assert!(!q.is_near_identity());
}

#[test]
fn identity_rotation_fixes_vectors() {
    let q = Quat { x: 0, y: 0, z: 0, w: 3 };
    assert_eq!(q.rotate(v(12, -7, 65536)), v(12, -7, 65536));
}

#[test]
fn quarter_turn_about_x() {
    // Half-angle 45 degrees: vector part and scalar part equal.
    let q = Quat { x: 1, y: 0, z: 0, w: 1 };
    assert_eq!(q.rotate(v(0, 1, 0)), v(0, 0, 1));
    assert_eq!(q.rotate(v(1, 0, 0)), v(1, 0, 0));
}

#[test]
fn quarter_turn_about_y() {
    let q = Quat { x: 0, y: 1, z: 0, w: 1 };
    assert_eq!(q.rotate(v(0, 0, 1)), v(1, 0, 0));
}

#[test]
fn quarter_turn_about_z() {
    let q = Quat { x: 0, y: 0, z: 1, w: 1 };
    assert_eq!(q.rotate(v(1, 0, 0)), v(0, 1, 0));
}

#[test]
fn scaling_the_quaternion_changes_nothing() {
    let q = Quat { x: 2, y: 0, z: 0, w: 2 };
    assert_eq!(q.rotate(v(0, 1, 0)), v(0, 0, 1));
}

#[test]
fn half_turn_about_y() {
    let q = Quat { x: 0, y: 1, z: 0, w: 0 };
    assert_eq!(q.rotate(v(1, 0, 0)), v(-1, 0, 0));
    assert_eq!(q.rotate(v(0, 1, 0)), v(0, 1, 0));
    assert_eq!(q.rotate(v(0, 0, 1)), v(0, 0, -1));
}

#[test]
fn inexact_rotation_rounds_toward_zero() {
    // Squared norm 5: the conjugation divides by 5 and truncates.
    let q = Quat { x: 1, y: 0, z: 0, w: 2 };
    assert_eq!(q.rotate(v(0, 65536, 0)), v(0, 39321, 52428));
    assert_eq!(q.rotate(v(0, -65536, 0)), v(0, -39321, -52428));
}

#[test]
fn transform_point_applies_scale_then_rotation_then_translation() {
    let t = Transform {
        translation: v(0, 1, 0),
        rotation: Quat { x: 0, y: 1, z: 0, w: 0 },
        scale: v(2, 1, 1),
    };
    assert_eq!(t.transform_point(v(1, 0, 0)), v(-2, 1, 0));
}

#[test]
fn identity_transform_fixes_points() {
    let t = Transform::identity();
    assert_eq!(t.transform_point(v(123, -456, 789)), v(123, -456, 789));
}

#[test]
fn translation_only_shifts_points() {
    let t = Transform {
        translation: v(5, -3, 2),
        rotation: Quat { x: 0, y: 0, z: 0, w: 1 },
        scale: v(1, 1, 1),
    };
    assert_eq!(t.transform_point(v(10, 20, 30)), v(15, 17, 32));
}

use rigid_transform::linalg::{Matrix4, Point3, Quat};
use rigid_transform::transform::XRRigidTransform;

fn assert_is_identity(m: &Matrix4) {
    assert!(m.den > 0);
    assert_eq!(m.m11, m.den);
    assert_eq!(m.m22, m.den);
    assert_eq!(m.m33, m.den);
    assert_eq!(m.m44, m.den);
    assert_eq!(m.m12, 0);
    assert_eq!(m.m13, 0);
    assert_eq!(m.m14, 0);
    assert_eq!(m.m21, 0);
    assert_eq!(m.m23, 0);
    assert_eq!(m.m24, 0);
    assert_eq!(m.m31, 0);
    assert_eq!(m.m32, 0);
    assert_eq!(m.m34, 0);
    assert_eq!(m.m41, 0);
    assert_eq!(m.m42, 0);
    assert_eq!(m.m43, 0);
}

#[test]
fn identity_inverse_is_identity() {
    let t = XRRigidTransform::identity();
    let inv = t.Inverse();
    assert_eq!(inv.Position(), Point3 { x: 0, y: 0, z: 0, d: 1 });
    assert_eq!(inv.Orientation(), Quat { x: 0, y: 0, z: 0, w: 1, d: 1 });
}

#[test]
fn pure_rotation_inverse_conjugates() {
    let t = XRRigidTransform::new(
        Point3 { x: 0, y: 0, z: 0, d: 1 },
        Quat { x: 0, y: 0, z: 3, w: 4, d: 5 },
    );
    let inv = t.Inverse();
    let p = inv.Position();
    assert_eq!(p.x, 0);
    assert_eq!(p.y, 0);
    assert_eq!(p.z, 0);
    assert_eq!(inv.Orientation(), Quat { x: 0, y: 0, z: -3, w: 4, d: 5 });
}

#[test]
fn pure_translation_inverse_negates() {
    let t = XRRigidTransform::new(
        Point3 { x: 1, y: 2, z: 3, d: 1 },
        Quat { x: 0, y: 0, z: 0, w: 1, d: 1 },
    );
    let inv = t.Inverse();
    assert_eq!(inv.Position(), Point3 { x: -1, y: -2, z: -3, d: 1 });
    assert_eq!(inv.Orientation(), Quat { x: 0, y: 0, z: 0, w: 1, d: 1 });
}

#[test]
fn inverse_round_trip_restores_value() {
    let t = XRRigidTransform::new(
        Point3 { x: 1, y: 2, z: 3, d: 2 },
        Quat { x: 0, y: 0, z: 119, w: 120, d: 169 },
    );
    let back = t.Inverse().Inverse();
    let p0 = t.Position();
    let p2 = back.Position();
    assert_eq!(p2.x * p0.d, p0.x * p2.d);
    assert_eq!(p2.y * p0.d, p0.y * p2.d);
    assert_eq!(p2.z * p0.d, p0.z * p2.d);
    assert_eq!(back.Orientation(), t.Orientation());
}

#[test]
fn matrix_maps_origin_to_position() {
    let t = XRRigidTransform::new(
        Point3 { x: 1, y: 0, z: 0, d: 1 },
        Quat { x: 0, y: 0, z: 7071, w: 7071, d: 10000 },
    );
    let m = t.matrix();
    assert_eq!(m.m14, m.den);
    assert_eq!(m.m24, 0);
    assert_eq!(m.m34, 0);
    let inv = t.Inverse();
    assert_eq!(inv.Orientation(), Quat { x: 0, y: 0, z: -7071, w: 7071, d: 10000 });
}

#[test]
fn matrix_composed_with_inverse_matrix_is_identity() {
    let t = XRRigidTransform::new(
        Point3 { x: 1, y: 0, z: 0, d: 1 },
        Quat { x: 0, y: 0, z: 119, w: 120, d: 169 },
    );
    let m1 = t.matrix();
    let inv = t.Inverse();
    let m2 = inv.matrix();
    let p = m1.multiply(&m2);
    assert_is_identity(&p);
}

#[test]
fn identity_law_for_general_pose() {
    let t = XRRigidTransform::new(
        Point3 { x: 7, y: -4, z: 9, d: 3 },
        Quat { x: 2, y: 2, z: 1, w: 4, d: 5 },
    );
    let m1 = t.matrix();
    let m2 = t.Inverse().matrix();
    assert_is_identity(&m1.multiply(&m2));
}

#[test]
fn non_unit_orientation_gives_scaled_rotation() {
    // (0, 0, 1, 1) / 2 has norm 1/2, not 1: construction accepts it and
    // the rotation block comes out scaled by the squared norm, as the
    // documented precondition-violation semantics state.
    let t = XRRigidTransform::new(
        Point3 { x: 0, y: 0, z: 0, d: 1 },
        Quat { x: 0, y: 0, z: 1, w: 1, d: 2 },
    );
    let m = t.matrix();
    assert_eq!(m.den, 4);
    assert_eq!(m.m11, 2);
    assert_eq!(m.m12, -2);
    assert_eq!(m.m21, 2);
    assert_eq!(m.m22, 2);
    assert_eq!(m.m33, 4);
}

#[test]
fn accessors_return_stored_components() {
    let p = Point3 { x: 5, y: 6, z: 7, d: 4 };
    let q = Quat { x: 1, y: 2, z: 3, w: 4, d: 6 };
    let t = XRRigidTransform::new(p, q);
    assert_eq!(t.Position(), p);
    assert_eq!(t.Orientation(), q);
}

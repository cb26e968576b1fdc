use linmath::functions::{quat_mul_quat, vec3};
use linmath::matrix::Mat3;
use linmath::quaternion::Quaternion;

fn q(w: i64, x: i64, y: i64, z: i64) -> Quaternion<i64> {
    Quaternion::new(vec3(x, y, z), w)
}

#[test]
fn hamilton_product_of_units() {
    let i = q(0, 1, 0, 0);
    let j = q(0, 0, 1, 0);
    let k = q(0, 0, 0, 1);
    assert_eq!((i * j).w_xyz(), k.w_xyz());
    assert_eq!((j * i).w_xyz(), (0, 0, 0, -1));
    assert_eq!((i * i).w_xyz(), (-1, 0, 0, 0));
    assert_eq!(quat_mul_quat(j, k).w_xyz(), i.w_xyz());
}

#[test]
fn hamilton_product_general() {
    let a = q(1, 2, 3, 4);
    let b = q(5, 6, 7, 8);
    assert_eq!((a * b).w_xyz(), (-60, 12, 30, 24));
}

#[test]
fn conjugate_and_parts() {
    let a = q(1, 2, 3, 4);
    assert_eq!(a.conjugate().w_xyz(), (1, -2, -3, -4));
    assert_eq!(*a.w(), 1);
    assert_eq!(*a.s(), 1);
    assert_eq!((*a.x(), *a.y(), *a.z()), (2, 3, 4));
    assert_eq!(a.xyz().0, [2, 3, 4]);
    assert_eq!(a.v().0, [2, 3, 4]);
    assert_eq!(Quaternion::pure(vec3(5i64, 6, 7)).w_xyz(), (0, 5, 6, 7));
}

#[test]
fn rotation_matrix_of_unit_quaternions() {
    assert_eq!(q(1, 0, 0, 0).rotation_matrix().0, [[1, 0, 0], [0, 1, 0], [0, 0, 1]]);
    assert_eq!(q(0, 0, 0, 1).rotation_matrix().0, [[-1, 0, 0], [0, -1, 0], [0, 0, 1]]);
    let m: Mat3<i64> = q(0, 1, 0, 0).into();
    assert_eq!(m.0, [[1, 0, 0], [0, -1, 0], [0, 0, -1]]);
}

#[test]
fn rotation_matrix_formula() {
    let m = q(1, 2, 3, 4).rotation_matrix();
    assert_eq!(
        m.0,
        [
            [1 - 18 - 32, 12 - 8, 16 + 6],
            [12 + 8, 1 - 8 - 32, 24 - 4],
            [16 - 6, 24 + 4, 1 - 8 - 18],
        ]
    );
}

#[test]
fn matrix_rotation_agrees_with_sandwich_product() {
    let v = vec3(3i64, -5, 7);
    for u in [q(1, 0, 0, 0), q(0, 1, 0, 0), q(0, 0, 1, 0), q(0, 0, 0, 1), q(0, 0, -1, 0)] {
        let by_matrix = u.rotation_matrix().transform(v);
        let by_product = u * Quaternion::pure(v) * u.conjugate();
        assert_eq!(by_matrix.0, by_product.xyz().0);
    }
}

#[test]
fn half_angle_composition() {
    let r = Quaternion::from_half_angle_trig(1i64, 2, 3, 4, 5, 6);
    let (cr, sr, cp, sp, cy, sy) = (1, 2, 3, 4, 5, 6);
    assert_eq!(
        r.w_xyz(),
        (
            cr * cp * cy + sr * sp * sy,
            sr * cp * cy - cr * sp * sy,
            cr * sp * cy + sr * cp * sy,
            cr * cp * sy - sr * sp * cy,
        )
    );
    let identity = Quaternion::from_half_angle_trig(1i64, 0, 1, 0, 1, 0);
    assert_eq!(identity.w_xyz(), (1, 0, 0, 0));
}

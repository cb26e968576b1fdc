use linmath::functions::{
    mat2, mat3, mat4, mat4_mul_mat4, mat_fill, mat_identity_fill, mat_to_mat2, mat_to_mat4,
    mat_transpose, scale, translation, vec3, vec4,
};
use linmath::matrix::{Mat2, Mat3, Mat4, Matrix, MatrixConversion, SquareMatrix};

#[test]
fn test_transpose() {
    let mut m: Mat4<i64> = Mat4::identity_fill(5);
    m.0[0][1] = 15;
    let n = m.transpose();
    assert_eq!(m.0, [[5, 15, 0, 0], [0, 5, 0, 0], [0, 0, 5, 0], [0, 0, 0, 5]]);
    assert_eq!(n.0, [[5, 0, 0, 0], [15, 5, 0, 0], [0, 0, 5, 0], [0, 0, 0, 5]]);
}

#[test]
fn mat2_mul() {
    let a = mat2(3i64, 7, 4, 9);
    let b = mat2(6i64, 2, 5, 8);
    let c = a * b;
    assert_eq!(c.0, [[3 * 6 + 7 * 5, 3 * 2 + 7 * 8], [4 * 6 + 9 * 5, 4 * 2 + 9 * 8]]);
    assert_eq!(c.0, [[53, 62], [69, 80]]);
}

#[test]
fn mat3_mul() {
    let a = mat3(12i64, 8, 4, 3, 17, 14, 9, 8, 10);
    let b = mat3(5i64, 19, 3, 6, 15, 9, 7, 8, 16);
    let c = a * b;
    assert_eq!(c.0, [[136, 380, 172], [215, 424, 386], [163, 371, 259]]);
}

#[test]
fn mat4_mul() {
    let a = mat4(2i64, 3, 4, 5, 6, 7, 8, 9, 10, 11, 12, 13, 14, 15, 16, 17);
    let b = mat4(3i64, 4, 5, 6, 7, 8, 9, 10, 11, 12, 13, 14, 15, 16, 17, 18);
    let c = mat4_mul_mat4(a, b);
    assert_eq!(
        c.0,
        [[146, 160, 174, 188], [290, 320, 350, 380], [434, 480, 526, 572], [578, 640, 702, 764]]
    );
    assert_eq!((a * b).0, c.0);
}

#[test]
fn mat4_identity_is_a_unit_on_both_sides() {
    let m = mat4(2i64, -3, 4, 5, 6, 7, -8, 9, 10, 11, 12, 13, -14, 15, 16, 17);
    let i: Mat4<i64> = Mat4::identity();
    assert_eq!((i * m).0, m.0);
    assert_eq!((m * i).0, m.0);
}

#[test]
fn mat4_product_is_associative() {
    let a = mat4(1i64, 2, 0, -1, 3, 1, 4, 2, 0, -2, 1, 1, 5, 0, 2, 3);
    let b = mat4(2i64, 0, 1, 1, -1, 3, 0, 2, 4, 1, 1, 0, 0, 2, -3, 1);
    let c = mat4(1i64, 1, 0, 2, 0, 1, 3, -1, 2, 0, 1, 1, -2, 4, 0, 1);
    assert_eq!(((a * b) * c).0, (a * (b * c)).0);
}

#[test]
fn mat_product_wraps_like_i64() {
    let a = mat2(i64::MAX, 0, 0, 1);
    let b = mat2(2i64, 0, 0, 1);
    assert_eq!((a * b).0, [[i64::MAX.wrapping_mul(2), 0], [0, 1]]);
}

#[test]
fn translation_moves_the_origin() {
    let t = translation(vec3(1i64, 2, 3));
    let p = t.transform(vec4(0i64, 0, 0, 1));
    assert_eq!(p.0, [1, 2, 3, 1]);
    assert_eq!(Mat4::translation(vec3(1i64, 2, 3)).0, t.0);
    assert_eq!(t.0, [[1, 0, 0, 1], [0, 1, 0, 2], [0, 0, 1, 3], [0, 0, 0, 1]]);
}

#[test]
fn scale_is_diagonal() {
    let s = scale(vec3(2i64, 3, 4));
    assert_eq!(s.0, [[2, 0, 0, 0], [0, 3, 0, 0], [0, 0, 4, 0], [0, 0, 0, 1]]);
    assert_eq!(s.transform(vec4(1i64, 1, 1, 1)).0, [2, 3, 4, 1]);
}

#[test]
fn fill_and_identity_fill() {
    let f: Matrix<2, 3, i64> = mat_fill(7);
    assert_eq!(f.0, [[7, 7, 7], [7, 7, 7]]);
    let d: Mat3<i64> = mat_identity_fill(4);
    assert_eq!(d.0, [[4, 0, 0], [0, 4, 0], [0, 0, 4]]);
    let e: Mat2<i64> = Mat2::identity_fill(-2);
    assert_eq!(e.0, [[-2, 0], [0, -2]]);
}

#[test]
fn transpose_of_non_square() {
    let m: Matrix<2, 3, i64> = Matrix([[1, 2, 3], [4, 5, 6]]);
    assert_eq!(mat_transpose(m).0, [[1, 4], [2, 5], [3, 6]]);
}

#[test]
fn conversion_embeds_and_truncates() {
    let a = mat2(1i64, 2, 3, 4);
    assert_eq!(a.mat3().0, [[1, 2, 0], [3, 4, 0], [0, 0, 1]]);
    assert_eq!(mat_to_mat4(a).0, [[1, 2, 0, 0], [3, 4, 0, 0], [0, 0, 1, 0], [0, 0, 0, 1]]);
    let b = mat3(1i64, 2, 3, 4, 5, 6, 7, 8, 9);
    assert_eq!(mat_to_mat2(b).0, [[1, 2], [4, 5]]);
    assert_eq!(b.mat3().0, b.0);
}

#[test]
fn zero_and_one_fills() {
    assert_eq!(Matrix::<2, 3, i64>::zero().0, [[0, 0, 0], [0, 0, 0]]);
    assert_eq!(Matrix::<3, 2, i64>::one().0, [[1, 1], [1, 1], [1, 1]]);
}

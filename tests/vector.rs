use linmath::functions::{max, min, vec2, vec3, vec4};
use linmath::vector::{Vector, Vector3};

#[test]
fn dot_product_sums_products() {
    assert_eq!(vec3(1i64, 2, 3).dot_product(vec3(4, -5, 6)), 4 - 10 + 18);
    assert_eq!(vec4(1i64, 1, 1, 1).dot_product(vec4(1, 2, 3, 4)), 10);
}

#[test]
fn cross_product_is_right_handed() {
    let x = vec3(1i64, 0, 0);
    let y = vec3(0i64, 1, 0);
    assert_eq!(x.cross_product(y).0, [0, 0, 1]);
    assert_eq!(y.cross_product(x).0, [0, 0, -1]);
    assert_eq!(vec3(2i64, 3, 4).cross_product(vec3(5, 6, 7)).0, [3 * 7 - 4 * 6, 4 * 5 - 2 * 7, 2 * 6 - 3 * 5]);
}

#[test]
fn negation_and_subtraction_are_componentwise() {
    let a = vec3(1i64, -2, 3);
    let b = vec3(4i64, 5, -6);
    assert_eq!((-a).0, [-1, 2, -3]);
    assert_eq!((a - b).0, [-3, -7, 9]);
}

#[test]
fn component_getters() {
    let v = vec4(1i64, 2, 3, 4);
    assert_eq!((v.x(), v.y(), v.z(), v.w()), (1, 2, 3, 4));
    let u: Vector3<i64> = vec3(5, 6, 7);
    assert_eq!(u.x_y_z(), (5, 6, 7));
    assert_eq!((u.x(), u.y(), u.z()), (5, 6, 7));
    let p = vec2(8i64, 9);
    assert_eq!((p.x(), p.y()), (8, 9));
    assert_eq!(Vector::<3, i64>::zero().0, [0, 0, 0]);
}

#[test]
fn max_and_min_pick_by_order() {
    assert_eq!(max(3, 5), 5);
    assert_eq!(max(5, 3), 5);
    assert_eq!(min(3, 5), 3);
    assert_eq!(min("b", "a"), "a");
}

#[test]
fn axis_vectors() {
    assert_eq!(Vector::<3, i64>::up().0, [0, 1, 0]);
    assert_eq!(Vector::<3, i64>::down().0, [0, -1, 0]);
    assert_eq!(Vector::<3, i64>::right().0, [1, 0, 0]);
    assert_eq!(Vector::<3, i64>::left().0, [-1, 0, 0]);
    assert_eq!(Vector::<3, i64>::forward().0, [0, 0, 1]);
    assert_eq!(Vector::<3, i64>::backward().0, [0, 0, -1]);
    assert_eq!(Vector::<2, i64>::left().0, [-1, 0]);
    assert_eq!(Vector::<4, i64>::backward().0, [0, 0, -1, 0]);
    let r = Vector::<3, i64>::right();
    assert_eq!(r.cross_product(Vector::<3, i64>::up()).0, Vector::<3, i64>::forward().0);
}

#[test]
fn empty_vector_dot_product_is_zero() {
    let e: Vector<0, i64> = Vector([]);
    assert_eq!(e.dot_product(Vector([])), 0);
    assert_eq!((-e).0, [0i64; 0]);
}

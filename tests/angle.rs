use linmath::angle::Angle;
use linmath::functions::{deg, rad};
use linmath::scalar::Scalar;

#[test]
fn unit_tags() {
    let a = rad(2i64);
    let b = deg(90i64);
    assert!(a.is_radians() && !a.is_degrees());
    assert!(b.is_degrees() && !b.is_radians());
    assert_eq!(a.units(), "");
    assert_eq!(b.units(), "°");
    assert_eq!(*b.inner(), 90);
    assert_eq!(b.to_inner(), 90);
    assert!(matches!(Angle::rad(3i64), Angle::Radians(3)));
    assert!(matches!(Angle::deg(3i64), Angle::Degrees(3)));
}

#[test]
fn scalar_arithmetic_keeps_the_unit() {
    assert!(matches!(rad(2i64) + 3, Angle::Radians(5)));
    assert!(matches!(deg(90i64) - 45, Angle::Degrees(45)));
    assert!(matches!(deg(10i64) + 5, Angle::Degrees(15)));
}

#[test]
fn default_is_zero_radians() {
    assert!(matches!(Angle::<i64>::default(), Angle::Radians(0)));
}

#[test]
fn i64_arithmetic_wraps() {
    assert_eq!(Scalar::plus(i64::MAX, 1), i64::MIN);
    assert_eq!(Scalar::times(i64::MAX, 2), -2);
    assert_eq!(Scalar::minus(i64::MIN, 1), i64::MAX);
    assert_eq!(Scalar::negate(i64::MIN), i64::MIN);
    assert_eq!(Scalar::negate(5i64), -5);
}

#[test]
fn scalar_as_angle() {
    assert!(matches!(5i64.angle_rad(), Angle::Radians(5)));
    assert!(matches!(5i64.angle_deg(), Angle::Degrees(5)));
}

use vstd::prelude::*;

use crate::algebra::dot_spec;
use crate::angle::Angle;
use crate::euler_angles::EulerAngles;
use crate::matrix::{Mat3, Matrix};
use crate::scalar::{two, two_spec, Real, Scalar};
use crate::vector::{divided_spec, negated_spec, Vector3};
use crate::functions::{quat_mul_quat, vec3};

verus! {

/// `w + x i + y j + z k`, held as the vector part `(x, y, z)` and the scalar
/// part `w`. Nothing keeps it of unit norm: rotations want `unit()` first.
#[derive(Clone, Copy, Debug)]
pub struct Quaternion<S> {
    pub xyz: Vector3<S>,
    pub w: S,
}

/// The Hamilton product of `a` and `b`, each given as `(w, x, y, z)`.
pub open spec fn hamilton_spec<S: Scalar>(a: (S, S, S, S), b: (S, S, S, S)) -> (S, S, S, S) {
    let (a_w, a_x, a_y, a_z) = a;
    let (b_w, b_x, b_y, b_z) = b;
    (
        a_w.times_spec(b_w).minus_spec(a_x.times_spec(b_x)).minus_spec(a_y.times_spec(b_y)).minus_spec(
            a_z.times_spec(b_z),
        ),
        a_w.times_spec(b_x).plus_spec(a_x.times_spec(b_w)).plus_spec(a_y.times_spec(b_z)).minus_spec(
            a_z.times_spec(b_y),
        ),
        a_w.times_spec(b_y).minus_spec(a_x.times_spec(b_z)).plus_spec(a_y.times_spec(b_w)).plus_spec(
            a_z.times_spec(b_x),
        ),
        a_w.times_spec(b_z).plus_spec(a_x.times_spec(b_y)).minus_spec(a_y.times_spec(b_x)).plus_spec(
            a_z.times_spec(b_w),
        ),
    )
}

/// The conjugate of the quaternion `(w, x, y, z)`.
pub open spec fn conjugate_spec<S: Scalar>(q: (S, S, S, S)) -> (S, S, S, S) {
    (q.0, q.1.negate_spec(), q.2.negate_spec(), q.3.negate_spec())
}

/// The pure quaternion with vector part `v`.
pub open spec fn pure_spec<S: Scalar>(v: Seq<S>) -> (S, S, S, S) {
    (S::zero_spec(), v[0], v[1], v[2])
}

/// The vector part of `q * pure(v) * conjugate(q)`, for `q` given as `(w, x, y, z)`.
#[verifier::opaque]
pub open spec fn sandwich_spec<S: Scalar>(q: (S, S, S, S), v: Seq<S>) -> Seq<S> {
    let s = hamilton_spec(hamilton_spec(q, pure_spec(v)), conjugate_spec(q));
    seq![s.1, s.2, s.3]
}

/// `2 a b`, evaluated as `(2 a) b`.
pub open spec fn twice_product<S: Scalar>(a: S, b: S) -> S {
    two_spec::<S>().times_spec(a).times_spec(b)
}

/// `1 - 2 a a - 2 b b`, evaluated left to right.
pub open spec fn one_minus_twice_squares<S: Scalar>(a: S, b: S) -> S {
    S::one_spec().minus_spec(twice_product(a, a)).minus_spec(twice_product(b, b))
}

/// The rows of the rotation matrix of the quaternion `(w, x, y, z)`.
pub open spec fn rotation_spec<S: Scalar>(q: (S, S, S, S)) -> Seq<Seq<S>> {
    let (w, x, y, z) = q;
    seq![
        seq![
            one_minus_twice_squares(y, z),
            twice_product(x, y).minus_spec(twice_product(w, z)),
            twice_product(x, z).plus_spec(twice_product(w, y)),
        ],
        seq![
            twice_product(x, y).plus_spec(twice_product(w, z)),
            one_minus_twice_squares(x, z),
            twice_product(y, z).minus_spec(twice_product(w, x)),
        ],
        seq![
            twice_product(x, z).minus_spec(twice_product(w, y)),
            twice_product(y, z).plus_spec(twice_product(w, x)),
            one_minus_twice_squares(x, y),
        ],
    ]
}

/// The quaternion `(w, x, y, z)` of the rotation whose half angles have the
/// cosines and sines `cr, sr` (roll), `cp, sp` (pitch) and `cy, sy` (yaw),
/// composed yaw, then pitch, then roll.
pub open spec fn half_angle_spec<S: Scalar>(cr: S, sr: S, cp: S, sp: S, cy: S, sy: S) -> (
    S,
    S,
    S,
    S,
) {
    (
        cr.times_spec(cp).times_spec(cy).plus_spec(sr.times_spec(sp).times_spec(sy)),
        sr.times_spec(cp).times_spec(cy).minus_spec(cr.times_spec(sp).times_spec(sy)),
        cr.times_spec(sp).times_spec(cy).plus_spec(sr.times_spec(cp).times_spec(sy)),
        cr.times_spec(cp).times_spec(sy).minus_spec(sr.times_spec(sp).times_spec(cy)),
    )
}

/// Half of an angle, in radians.
pub open spec fn half_radians<S: Real>(a: Angle<S>) -> S {
    a.to_radians_spec().magnitude_spec().divide_spec(two_spec::<S>())
}

/// The quaternion `(w, x, y, z)` of a rotation given as Euler angles.
pub open spec fn from_euler_spec<S: Real>(e: EulerAngles<S>) -> (S, S, S, S) {
    let r = half_radians(e.roll);
    let p = half_radians(e.pitch);
    let y = half_radians(e.yaw);
    half_angle_spec(r.cos_spec(), r.sin_spec(), p.cos_spec(), p.sin_spec(), y.cos_spec(), y.sin_spec())
}

/// `atan2(2 (a b + c d), 1 - 2 (e e + f f))`: roll and yaw from a quaternion.
pub open spec fn atan2_of_products<S: Real>(a: S, b: S, c: S, d: S, e: S, f: S) -> S {
    let num = two_spec::<S>().times_spec(a.times_spec(b).plus_spec(c.times_spec(d)));
    let den = S::one_spec().minus_spec(
        two_spec::<S>().times_spec(e.times_spec(e).plus_spec(f.times_spec(f))),
    );
    num.atan2_spec(den)
}

/// The pitch of the quaternion `(w, x, y, z)`, in radians:
/// `2 atan2(sqrt(1 + 2 t), sqrt(1 - 2 t)) - pi / 2` with `t = w y - x z`.
pub open spec fn pitch_spec<S: Real>(w: S, x: S, y: S, z: S) -> S {
    let t = two_spec::<S>().times_spec(w.times_spec(y).minus_spec(x.times_spec(z)));
    let sin_p = S::one_spec().plus_spec(t).sqrt_spec();
    let cos_p = S::one_spec().minus_spec(t).sqrt_spec();
    two_spec::<S>().times_spec(sin_p.atan2_spec(cos_p)).minus_spec(
        S::pi_spec().divide_spec(two_spec::<S>()),
    )
}

/// The Euler angles, in radians, of the rotation by the quaternion `(w, x, y, z)`.
pub open spec fn to_euler_spec<S: Real>(q: (S, S, S, S)) -> EulerAngles<S> {
    let (w, x, y, z) = q;
    EulerAngles {
        roll: Angle::Radians(atan2_of_products(w, x, y, z, x, y)),
        pitch: Angle::Radians(pitch_spec(w, x, y, z)),
        yaw: Angle::Radians(atan2_of_products(w, z, x, y, y, z)),
    }
}

impl<S> Quaternion<S> {
    /// The four components as `(w, x, y, z)`.
    pub open spec fn wxyz_spec(self) -> (S, S, S, S) {
        (self.w, self.xyz@[0], self.xyz@[1], self.xyz@[2])
    }
}

impl<S: Scalar> Quaternion<S> {
    /// `w² + x² + y² + z²`, as `x x + y y + z z + w w`.
    pub open spec fn norm_squared_spec(self) -> S {
        dot_spec(self.xyz@, self.xyz@).plus_spec(self.w.times_spec(self.w))
    }
}

impl<S: Real> Quaternion<S> {
    pub open spec fn norm_spec(self) -> S {
        self.norm_squared_spec().sqrt_spec()
    }
}

impl<S: Scalar> Quaternion<S> {
    pub fn new(xyz: Vector3<S>, w: S) -> (r: Self)
        ensures
            r.xyz == xyz,
            r.w == w,
    {
        Quaternion { xyz, w }
    }

    /// The quaternion with vector part `xyz` and scalar part zero.
    pub fn pure(xyz: Vector3<S>) -> (r: Self)
        ensures
            r.xyz == xyz,
            r.w == S::zero_spec(),
            r.wxyz_spec() == pure_spec(xyz@),
    {
        Quaternion { xyz, w: S::zero() }
    }

    /// `w - x i - y j - z k`.
    pub fn conjugate(&self) -> (r: Self)
        ensures
            r.xyz@ == negated_spec(self.xyz@),
            r.w == self.w,
            r.wxyz_spec() == conjugate_spec(self.wxyz_spec()),
    {
        Quaternion { xyz: core::ops::Neg::neg(self.xyz), w: self.w }
    }

    pub fn xyz(&self) -> (r: &Vector3<S>)
        ensures
            *r == self.xyz,
    {
        &self.xyz
    }

    pub fn w(&self) -> (r: &S)
        ensures
            *r == self.w,
    {
        &self.w
    }

    /// The vector part.
    pub fn v(&self) -> (r: &Vector3<S>)
        ensures
            *r == self.xyz,
    {
        &self.xyz
    }

    /// The scalar part.
    pub fn s(&self) -> (r: &S)
        ensures
            *r == self.w,
    {
        &self.w
    }

    pub fn x(&self) -> (r: &S)
        ensures
            *r == self.xyz@[0],
    {
        &self.xyz.0[0]
    }

    pub fn y(&self) -> (r: &S)
        ensures
            *r == self.xyz@[1],
    {
        &self.xyz.0[1]
    }

    pub fn z(&self) -> (r: &S)
        ensures
            *r == self.xyz@[2],
    {
        &self.xyz.0[2]
    }

    pub fn w_xyz(&self) -> (r: (S, S, S, S))
        ensures
            r == self.wxyz_spec(),
    {
        (self.w, *self.x(), *self.y(), *self.z())
    }

    /// The rotation matrix of this quaternion. It describes a rotation only
    /// when the quaternion has unit norm; nothing here checks that.
    pub fn rotation_matrix(self) -> (r: Mat3<S>)
        ensures
            r@ == rotation_spec(self.wxyz_spec()),
    {
        let (w, x, y, z) = self.w_xyz();
        let one = S::one();
        let two = two::<S>();
        let r = Matrix(
            [
                [
                    one.minus(two.times(y).times(y)).minus(two.times(z).times(z)),
                    two.times(x).times(y).minus(two.times(w).times(z)),
                    two.times(x).times(z).plus(two.times(w).times(y)),
                ],
                [
                    two.times(x).times(y).plus(two.times(w).times(z)),
                    one.minus(two.times(x).times(x)).minus(two.times(z).times(z)),
                    two.times(y).times(z).minus(two.times(w).times(x)),
                ],
                [
                    two.times(x).times(z).minus(two.times(w).times(y)),
                    two.times(y).times(z).plus(two.times(w).times(x)),
                    one.minus(two.times(x).times(x)).minus(two.times(y).times(y)),
                ],
            ],
        );
        assert(r@ =~~= rotation_spec(self.wxyz_spec()));
        r
    }

    /// The quaternion of the rotation whose half angles have the cosines and
    /// sines `cr, sr` (roll), `cp, sp` (pitch) and `cy, sy` (yaw).
    pub fn from_half_angle_trig(cr: S, sr: S, cp: S, sp: S, cy: S, sy: S) -> (r: Self)
        ensures
            r.wxyz_spec() == half_angle_spec(cr, sr, cp, sp, cy, sy),
    {
        let w = cr.times(cp).times(cy).plus(sr.times(sp).times(sy));
        let x = sr.times(cp).times(cy).minus(cr.times(sp).times(sy));
        let y = cr.times(sp).times(cy).plus(sr.times(cp).times(sy));
        let z = cr.times(cp).times(sy).minus(sr.times(sp).times(cy));
        Quaternion::new(vec3(x, y, z), w)
    }
}

impl<S: Real> Quaternion<S> {
    /// `sqrt(x² + y² + z² + w²)`.
    pub fn norm(&self) -> (r: S)
        ensures
            r == self.norm_spec(),
    {
        self.xyz.dot_product(self.xyz).plus(self.w.times(self.w)).square_root()
    }

    /// Every component divided by the norm. A zero quaternion divides by
    /// zero: what that gives is the scalar's own affair.
    pub fn unit(&self) -> (r: Self)
        ensures
            r.xyz@ == divided_spec(self.xyz@, self.norm_spec()),
            r.w == self.w.divide_spec(self.norm_spec()),
    {
        let norm = self.norm();
        Quaternion { xyz: self.xyz / norm, w: self.w.divide(norm) }
    }

    /// The conjugate divided by the square of the norm.
    pub fn inverse(&self) -> (r: Self)
        ensures
            r.xyz@ == divided_spec(
                negated_spec(self.xyz@),
                self.norm_spec().times_spec(self.norm_spec()),
            ),
            r.w == self.w.divide_spec(self.norm_spec().times_spec(self.norm_spec())),
    {
        let norm = self.norm();
        self.conjugate() / norm.times(norm)
    }

    /// The quaternion of a rotation given as Euler angles, whatever their units.
    pub fn from_euler(value: EulerAngles<S>) -> (r: Self)
        ensures
            r.wxyz_spec() == from_euler_spec(value),
    {
        let two = two::<S>();
        let roll = value.roll.to_radians().to_inner().divide(two);
        let pitch = value.pitch.to_radians().to_inner().divide(two);
        let yaw = value.yaw.to_radians().to_inner().divide(two);
        Quaternion::from_half_angle_trig(
            roll.cosine(),
            roll.sine(),
            pitch.cosine(),
            pitch.sine(),
            yaw.cosine(),
            yaw.sine(),
        )
    }

    /// The Euler angles, in radians, of the rotation by this quaternion,
    /// which should have unit norm: then `t = 2 (w y - x z)` lies in
    /// `[-1, 1]` and both square roots of the pitch are of non-negative
    /// values. Nothing here checks or clamps that. At a pitch of a quarter
    /// turn either way roll and yaw are not separable, and only their
    /// combination is meaningful.
    pub fn to_euler(self) -> (r: EulerAngles<S>)
        ensures
            r == to_euler_spec(self.wxyz_spec()),
    {
        let one = S::one();
        let two = two::<S>();
        let (q_w, q_x, q_y, q_z) = self.w_xyz();

        let sinr_cosp = two.times(q_w.times(q_x).plus(q_y.times(q_z)));
        let cosr_cosp = one.minus(two.times(q_x.times(q_x).plus(q_y.times(q_y))));

        let t = two.times(q_w.times(q_y).minus(q_x.times(q_z)));
        let sin_p = one.plus(t).square_root();
        let cos_p = one.minus(t).square_root();

        let siny_cosp = two.times(q_w.times(q_z).plus(q_x.times(q_y)));
        let cosy_cosp = one.minus(two.times(q_y.times(q_y).plus(q_z.times(q_z))));

        EulerAngles {
            roll: Angle::rad(sinr_cosp.inv_tangent2(cosr_cosp)),
            pitch: Angle::rad(two.times(sin_p.inv_tangent2(cos_p)).minus(S::pi().divide(two))),
            yaw: Angle::rad(siny_cosp.inv_tangent2(cosy_cosp)),
        }
    }
}

impl<S: Scalar> vstd::std_specs::ops::MulSpecImpl for Quaternion<S> {
    /// The product is given by the `ensures` of `mul` itself.
    open spec fn obeys_mul_spec() -> bool {
        false
    }

    open spec fn mul_req(self, rhs: Self) -> bool {
        true
    }

    open spec fn mul_spec(self, rhs: Self) -> Self {
        arbitrary()
    }
}

impl<S: Scalar> core::ops::Mul for Quaternion<S> {
    type Output = Self;

    /// The Hamilton product.
    fn mul(self, rhs: Self) -> (r: Self)
        ensures
            r.wxyz_spec() == hamilton_spec(self.wxyz_spec(), rhs.wxyz_spec()),
    {
        quat_mul_quat(self, rhs)
    }
}

impl<S: Real> vstd::std_specs::ops::DivSpecImpl<S> for Quaternion<S> {
    /// The quotient is given by the `ensures` of `div` itself.
    open spec fn obeys_div_spec() -> bool {
        false
    }

    open spec fn div_req(self, rhs: S) -> bool {
        true
    }

    open spec fn div_spec(self, rhs: S) -> Self {
        arbitrary()
    }
}

impl<S: Real> core::ops::Div<S> for Quaternion<S> {
    type Output = Self;

    /// Every component divided by `rhs`.
    fn div(self, rhs: S) -> (r: Self)
        ensures
            r.xyz@ == divided_spec(self.xyz@, rhs),
            r.w == self.w.divide_spec(rhs),
    {
        Quaternion { xyz: self.xyz / rhs, w: self.w.divide(rhs) }
    }
}

impl<S: Real> vstd::std_specs::convert::FromSpecImpl<EulerAngles<S>> for Quaternion<S> {
    /// The result is given by the `ensures` of `from` itself.
    open spec fn obeys_from_spec() -> bool {
        false
    }

    open spec fn from_spec(v: EulerAngles<S>) -> Self {
        arbitrary()
    }
}

impl<S: Real> From<EulerAngles<S>> for Quaternion<S> {
    fn from(value: EulerAngles<S>) -> (r: Self)
        ensures
            r.wxyz_spec() == from_euler_spec(value),
    {
        Quaternion::from_euler(value)
    }
}

impl<S: Real> vstd::std_specs::convert::FromSpecImpl<Quaternion<S>> for EulerAngles<S> {
    open spec fn obeys_from_spec() -> bool {
        true
    }

    open spec fn from_spec(q: Quaternion<S>) -> Self {
        to_euler_spec(q.wxyz_spec())
    }
}

impl<S: Real> From<Quaternion<S>> for EulerAngles<S> {
    fn from(q: Quaternion<S>) -> (r: Self) {
        q.to_euler()
    }
}

impl<S: Scalar> vstd::std_specs::convert::FromSpecImpl<Quaternion<S>> for Matrix<3, 3, S> {
    /// The result is given by the `ensures` of `from` itself.
    open spec fn obeys_from_spec() -> bool {
        false
    }

    open spec fn from_spec(q: Quaternion<S>) -> Self {
        arbitrary()
    }
}

impl<S: Scalar> From<Quaternion<S>> for Matrix<3, 3, S> {
    /// The rotation matrix of a unit quaternion.
    fn from(q: Quaternion<S>) -> (r: Self)
        ensures
            r@ == rotation_spec(q.wxyz_spec()),
    {
        q.rotation_matrix()
    }
}

} // verus!

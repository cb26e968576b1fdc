use vstd::arithmetic::div_mod::{
    lemma_add_mod_noop, lemma_mul_mod_noop_general, lemma_mul_mod_noop_right, lemma_sub_mod_noop,
};
use vstd::prelude::*;

use crate::angle::Angle;

verus! {

/// The numeric ring every container of this library is generic over.
///
/// Each operation is given by a spec function, and an implementation proves
/// the commutative-ring laws for those spec functions, so that algebraic facts
/// about vectors, matrices and quaternions can be proved once for every scalar.
pub trait Scalar: Copy + Sized {
    spec fn zero_spec() -> Self;

    spec fn one_spec() -> Self;

    spec fn plus_spec(self, b: Self) -> Self;

    spec fn minus_spec(self, b: Self) -> Self;

    spec fn times_spec(self, b: Self) -> Self;

    spec fn negate_spec(self) -> Self;

    fn zero() -> (r: Self)
        ensures
            r == Self::zero_spec(),
    ;

    fn one() -> (r: Self)
        ensures
            r == Self::one_spec(),
    ;

    fn plus(self, b: Self) -> (r: Self)
        ensures
            r == self.plus_spec(b),
    ;

    fn minus(self, b: Self) -> (r: Self)
        ensures
            r == self.minus_spec(b),
    ;

    fn times(self, b: Self) -> (r: Self)
        ensures
            r == self.times_spec(b),
    ;

    fn negate(self) -> (r: Self)
        ensures
            r == self.negate_spec(),
    ;

    /// This value as an angle in radians.
    fn angle_rad(self) -> (r: Angle<Self>)
        ensures
            r == Angle::Radians(self),
    {
        Angle::Radians(self)
    }

    /// This value as an angle in degrees.
    fn angle_deg(self) -> (r: Angle<Self>)
        ensures
            r == Angle::Degrees(self),
    {
        Angle::Degrees(self)
    }

    proof fn lemma_plus_assoc(a: Self, b: Self, c: Self)
        ensures
            a.plus_spec(b.plus_spec(c)) == a.plus_spec(b).plus_spec(c),
    ;

    proof fn lemma_plus_comm(a: Self, b: Self)
        ensures
            a.plus_spec(b) == b.plus_spec(a),
    ;

    proof fn lemma_plus_zero(a: Self)
        ensures
            a.plus_spec(Self::zero_spec()) == a,
    ;

    proof fn lemma_plus_negate(a: Self)
        ensures
            a.plus_spec(a.negate_spec()) == Self::zero_spec(),
    ;

    proof fn lemma_minus_is_plus_negate(a: Self, b: Self)
        ensures
            a.minus_spec(b) == a.plus_spec(b.negate_spec()),
    ;

    proof fn lemma_times_assoc(a: Self, b: Self, c: Self)
        ensures
            a.times_spec(b.times_spec(c)) == a.times_spec(b).times_spec(c),
    ;

    proof fn lemma_times_comm(a: Self, b: Self)
        ensures
            a.times_spec(b) == b.times_spec(a),
    ;

    proof fn lemma_times_one(a: Self)
        ensures
            a.times_spec(Self::one_spec()) == a,
    ;

    proof fn lemma_times_zero(a: Self)
        ensures
            a.times_spec(Self::zero_spec()) == Self::zero_spec(),
    ;

    proof fn lemma_distrib(a: Self, b: Self, c: Self)
        ensures
            a.times_spec(b.plus_spec(c)) == a.times_spec(b).plus_spec(a.times_spec(c)),
    ;
}

/// The operations of the real numbers that rotations and projections need,
/// on top of the ring operations: division, powers, square root,
/// trigonometry, the constant pi and the conversion of a plain magnitude
/// between radians and degrees. Each is named by a spec function of the
/// implementing type, and the contracts of this crate are stated over those
/// names: they say which operations are applied to which values, in which
/// order, and leave what each operation computes to the implementing type.
pub trait Real: Scalar {
    spec fn divide_spec(self, b: Self) -> Self;

    spec fn pow_spec(self, e: Self) -> Self;

    spec fn sqrt_spec(self) -> Self;

    spec fn sin_spec(self) -> Self;

    spec fn cos_spec(self) -> Self;

    spec fn tan_spec(self) -> Self;

    spec fn atan2_spec(self, b: Self) -> Self;

    spec fn pi_spec() -> Self;

    spec fn rad_spec(self) -> Self;

    spec fn deg_spec(self) -> Self;

    fn divide(self, b: Self) -> (r: Self)
        ensures
            r == self.divide_spec(b),
    ;

    /// `self` raised to the power `e`.
    fn pow(self, e: Self) -> (r: Self)
        ensures
            r == self.pow_spec(e),
    ;

    fn square_root(self) -> (r: Self)
        ensures
            r == self.sqrt_spec(),
    ;

    fn sine(self) -> (r: Self)
        ensures
            r == self.sin_spec(),
    ;

    fn cosine(self) -> (r: Self)
        ensures
            r == self.cos_spec(),
    ;

    fn tangent(self) -> (r: Self)
        ensures
            r == self.tan_spec(),
    ;

    /// The angle of the point `(b, self)`, as `atan2(self, b)`.
    fn inv_tangent2(self, b: Self) -> (r: Self)
        ensures
            r == self.atan2_spec(b),
    ;

    fn pi() -> (r: Self)
        ensures
            r == Self::pi_spec(),
    ;

    /// Converts a magnitude in degrees to radians.
    fn rad(self) -> (r: Self)
        ensures
            r == self.rad_spec(),
    ;

    /// Converts a magnitude in radians to degrees.
    fn deg(self) -> (r: Self)
        ensures
            r == self.deg_spec(),
    ;
}

/// Two, as one plus one.
pub open spec fn two_spec<S: Scalar>() -> S {
    S::one_spec().plus_spec(S::one_spec())
}

pub fn two<S: Scalar>() -> (r: S)
    ensures
        r == two_spec::<S>(),
{
    S::one().plus(S::one())
}

/// The number of distinct `i64` values.
pub open spec fn i64_modulus() -> int {
    0x1_0000_0000_0000_0000
}

/// The `i64` that is congruent to `x` modulo 2^64: the result of every
/// wrapping operation on `i64`.
#[verifier::opaque]
pub open spec fn wrap64(x: int) -> i64 {
    vstd::wrapping::i64_specs::signed_crop(x)
}

proof fn lemma_wrap64_in_range(x: int)
    requires
        i64::MIN <= x <= i64::MAX,
    ensures
        wrap64(x) as int == x,
{
    reveal(wrap64);
}

proof fn lemma_wrap64_congruent(x: int)
    ensures
        (wrap64(x) as int) % i64_modulus() == x % i64_modulus(),
{
    reveal(wrap64);
    let r = x % i64_modulus();
    if r > i64::MAX {
        assert((r - i64_modulus()) % i64_modulus() == r % i64_modulus());
    }
}

proof fn lemma_wrap64_plus_right(a: int, x: int)
    ensures
        wrap64(a + wrap64(x) as int) == wrap64(a + x),
{
    lemma_wrap64_congruent(x);
    lemma_add_mod_noop(a, wrap64(x) as int, i64_modulus());
    lemma_add_mod_noop(a, x, i64_modulus());
    lemma_wrap64_congruent_eq(a + wrap64(x) as int, a + x);
}

proof fn lemma_wrap64_times_right(a: int, x: int)
    ensures
        wrap64(a * wrap64(x) as int) == wrap64(a * x),
{
    lemma_wrap64_congruent(x);
    lemma_mul_mod_noop_right(a, wrap64(x) as int, i64_modulus());
    lemma_mul_mod_noop_right(a, x, i64_modulus());
    lemma_wrap64_congruent_eq(a * wrap64(x) as int, a * x);
}

/// Integers congruent modulo 2^64 wrap to the same `i64`.
pub proof fn lemma_wrap64_congruent_eq(p: int, q: int)
    requires
        p % i64_modulus() == q % i64_modulus(),
    ensures
        wrap64(p) == wrap64(q),
{
    reveal(wrap64);
}

/// Every `i64` is its own wrap.
pub proof fn lemma_wrap64_of(v: i64)
    ensures
        wrap64(v as int) == v,
{
    lemma_wrap64_in_range(v as int);
}

/// Wrapping addition of wrapped integers wraps their sum.
pub proof fn lemma_wrap64_plus(p: int, q: int)
    ensures
        wrap64(p).plus_spec(wrap64(q)) == wrap64(p + q),
{
    let (wp, wq) = (wrap64(p) as int, wrap64(q) as int);
    lemma_wrap64_congruent(p);
    lemma_wrap64_congruent(q);
    lemma_add_mod_noop(wp, wq, i64_modulus());
    lemma_add_mod_noop(p, q, i64_modulus());
    lemma_wrap64_congruent_eq(wp + wq, p + q);
}

/// Wrapping subtraction of wrapped integers wraps their difference.
pub proof fn lemma_wrap64_minus(p: int, q: int)
    ensures
        wrap64(p).minus_spec(wrap64(q)) == wrap64(p - q),
{
    let (wp, wq) = (wrap64(p) as int, wrap64(q) as int);
    lemma_wrap64_congruent(p);
    lemma_wrap64_congruent(q);
    lemma_sub_mod_noop(wp, wq, i64_modulus());
    lemma_sub_mod_noop(p, q, i64_modulus());
    lemma_wrap64_congruent_eq(wp - wq, p - q);
}

/// Wrapping multiplication of wrapped integers wraps their product.
pub proof fn lemma_wrap64_times(p: int, q: int)
    ensures
        wrap64(p).times_spec(wrap64(q)) == wrap64(p * q),
{
    let (wp, wq) = (wrap64(p) as int, wrap64(q) as int);
    lemma_wrap64_congruent(p);
    lemma_wrap64_congruent(q);
    lemma_mul_mod_noop_general(wp, wq, i64_modulus());
    lemma_mul_mod_noop_general(p, wq, i64_modulus());
    lemma_mul_mod_noop_general(p, q, i64_modulus());
    lemma_wrap64_congruent_eq(wp * wq, p * q);
}

/// Wrapping negation of a wrapped integer wraps its negation.
pub proof fn lemma_wrap64_negate(p: int)
    ensures
        wrap64(p).negate_spec() == wrap64(-p),
{
    let wp = wrap64(p) as int;
    lemma_wrap64_congruent(p);
    lemma_sub_mod_noop(0, wp, i64_modulus());
    lemma_sub_mod_noop(0, p, i64_modulus());
    lemma_wrap64_congruent_eq(-wp, -p);
}

/// Adding a multiple of `n - 1`, where `n` wraps to one, changes no wrap.
pub proof fn lemma_wrap64_plus_multiple(p: int, n: int, t: int)
    requires
        wrap64(n) == 1,
    ensures
        wrap64(p + (n - 1) * t) == wrap64(p),
{
    lemma_wrap64_minus(n, 1);
    lemma_wrap64_of(1);
    lemma_wrap64_of(0);
    lemma_wrap64_times(n - 1, t);
    lemma_wrap64_plus(p, (n - 1) * t);
    lemma_wrap64_in_range(wrap64(p) as int);
}

/// `i64` with wrapping arithmetic: the ring of integers modulo 2^64.
impl Scalar for i64 {
    open spec fn zero_spec() -> i64 {
        0
    }

    open spec fn one_spec() -> i64 {
        1
    }

    open spec fn plus_spec(self, b: i64) -> i64 {
        wrap64(self + b)
    }

    open spec fn minus_spec(self, b: i64) -> i64 {
        wrap64(self - b)
    }

    open spec fn times_spec(self, b: i64) -> i64 {
        wrap64(self * b)
    }

    open spec fn negate_spec(self) -> i64 {
        wrap64(-self)
    }

    fn zero() -> (r: i64) {
        0
    }

    fn one() -> (r: i64) {
        1
    }

    fn plus(self, b: i64) -> (r: i64) {
        proof {
            reveal(wrap64);
        }
        self.wrapping_add(b)
    }

    fn minus(self, b: i64) -> (r: i64) {
        proof {
            reveal(wrap64);
        }
        self.wrapping_sub(b)
    }

    fn times(self, b: i64) -> (r: i64) {
        proof {
            reveal(wrap64);
        }
        self.wrapping_mul(b)
    }

    fn negate(self) -> (r: i64) {
        proof {
            reveal(wrap64);
        }
        0i64.wrapping_sub(self)
    }

    proof fn lemma_plus_assoc(a: i64, b: i64, c: i64) {
        lemma_wrap64_plus_right(a as int, b + c);
        lemma_wrap64_plus_right(c as int, a + b);
        assert(a + (b + c) == c + (a + b));
    }

    proof fn lemma_plus_comm(a: i64, b: i64) {
        assert(a + b == b + a);
    }

    proof fn lemma_plus_zero(a: i64) {
        lemma_wrap64_in_range(a as int);
    }

    proof fn lemma_plus_negate(a: i64) {
        lemma_wrap64_plus_right(a as int, -a);
        lemma_wrap64_in_range(0);
    }

    proof fn lemma_minus_is_plus_negate(a: i64, b: i64) {
        lemma_wrap64_plus_right(a as int, -b);
    }

    proof fn lemma_times_assoc(a: i64, b: i64, c: i64) {
        lemma_wrap64_times_right(a as int, b * c);
        lemma_wrap64_times_right(c as int, a * b);
        assert(a * (b * c) == c * (a * b)) by (nonlinear_arith);
        let ab = wrap64(a * b) as int;
        assert(ab * c == c * ab) by (nonlinear_arith);
    }

    proof fn lemma_times_comm(a: i64, b: i64) {
        assert(a * b == b * a) by (nonlinear_arith);
    }

    proof fn lemma_times_one(a: i64) {
        lemma_wrap64_in_range(a as int);
    }

    proof fn lemma_times_zero(a: i64) {
        lemma_wrap64_in_range(0);
    }

    proof fn lemma_distrib(a: i64, b: i64, c: i64) {
        lemma_wrap64_times_right(a as int, b + c);
        lemma_wrap64_plus_right(wrap64(a * b) as int, a * c);
        lemma_wrap64_plus_right(a * c, a * b);
        assert(a * (b + c) == a * c + a * b) by (nonlinear_arith);
    }
}

} // verus!

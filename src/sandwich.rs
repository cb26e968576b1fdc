//! The rotation matrix of a unit quaternion agrees with the sandwich
//! product `q * pure(v) * conjugate(q)`, proved for `i64`.
//!
//! Every `i64` operation wraps the integer result of its operands, so each
//! side of the law is the wrap of an integer polynomial in the components of
//! `q` and `v`; the two polynomials differ by `(|q|² - 1)` times a component
//! of `v`, and that difference wraps to zero when `|q|²` wraps to one.

use vstd::prelude::*;

use crate::algebra::{apply_spec, lemma_dot3};
use crate::quaternion::{
    conjugate_spec, hamilton_spec, pure_spec, rotation_spec, sandwich_spec, Quaternion,
};
use crate::scalar::{
    lemma_wrap64_minus, lemma_wrap64_negate, lemma_wrap64_of, lemma_wrap64_plus,
    lemma_wrap64_plus_multiple, lemma_wrap64_times, wrap64, Scalar,
};
use crate::vector::Vector3;

verus! {

/// The leaves of the expressions below are their own wraps, and the
/// squared norm is the sum of the four squares.
proof fn lemma_sandwich_leaves(q: Quaternion<i64>, v: Vector3<i64>)
    ensures
        wrap64(q.w as int) == q.w,
        wrap64(q.xyz@[0] as int) == q.xyz@[0],
        wrap64(q.xyz@[1] as int) == q.xyz@[1],
        wrap64(q.xyz@[2] as int) == q.xyz@[2],
        wrap64(v@[0] as int) == v@[0],
        wrap64(v@[1] as int) == v@[1],
        wrap64(v@[2] as int) == v@[2],
        wrap64(0) == 0i64,
        wrap64(1) == 1i64,
        q.norm_squared_spec() == q.xyz@[0].times_spec(q.xyz@[0]).plus_spec(
            q.xyz@[1].times_spec(q.xyz@[1]),
        ).plus_spec(q.xyz@[2].times_spec(q.xyz@[2])).plus_spec(q.w.times_spec(q.w)),
{
    lemma_wrap64_of(q.w);
    lemma_wrap64_of(q.xyz@[0]);
    lemma_wrap64_of(q.xyz@[1]);
    lemma_wrap64_of(q.xyz@[2]);
    lemma_wrap64_of(v@[0]);
    lemma_wrap64_of(v@[1]);
    lemma_wrap64_of(v@[2]);
    lemma_wrap64_of(0);
    lemma_wrap64_of(1);
    lemma_dot3(q.xyz@, q.xyz@);
}

/// The integer polynomials of the x components of the sandwich product and
/// of the rotated vector differ by `(|q|² - 1)` times the x component of `v`.
/// Each product is expanded on its own, then the monomials are reordered.
proof fn lemma_sandwich_polynomial_x(wi: int, xi: int, yi: int, zi: int, ai: int, bi: int, ci: int)
    ensures
        ((((((((wi * 0int) - (xi * ai)) - (yi * bi)) - (zi * ci)) * (-xi)) + (((((wi * ai) + (xi * 0int)) + (yi * ci)) - (zi * bi)) * wi)) + (((((wi * bi) - (xi * ci)) + (yi * 0int)) + (zi * ai)) * (-zi))) - (((((wi * ci) + (xi * bi)) - (yi * ai)) + (zi * 0int)) * (-yi))) == (((((1int - (((1int + 1int) * yi) * yi)) - (((1int + 1int) * zi) * zi)) * ai) + (((((1int + 1int) * xi) * yi) - (((1int + 1int) * wi) * zi)) * bi)) + (((((1int + 1int) * xi) * zi) + (((1int + 1int) * wi) * yi)) * ci)) + (((((xi * xi) + (yi * yi)) + (zi * zi)) + (wi * wi)) - 1) * ai,
{
    assert((((((wi * 0int) - (xi * ai)) - (yi * bi)) - (zi * ci)) * (-xi)) == xi * ai * xi + yi * bi * xi + zi * ci * xi) by (nonlinear_arith);
    assert((((((wi * ai) + (xi * 0int)) + (yi * ci)) - (zi * bi)) * wi) == wi * ai * wi + yi * ci * wi - zi * bi * wi) by (nonlinear_arith);
    assert((((((wi * bi) - (xi * ci)) + (yi * 0int)) + (zi * ai)) * (-zi)) == -(wi * bi * zi) + xi * ci * zi - zi * ai * zi) by (nonlinear_arith);
    assert((((((wi * ci) + (xi * bi)) - (yi * ai)) + (zi * 0int)) * (-yi)) == -(wi * ci * yi) - xi * bi * yi + yi * ai * yi) by (nonlinear_arith);
    assert((((1int - (((1int + 1int) * yi) * yi)) - (((1int + 1int) * zi) * zi)) * ai) == ai - 2 * (yi * yi * ai) - 2 * (zi * zi * ai)) by (nonlinear_arith);
    assert((((((1int + 1int) * xi) * yi) - (((1int + 1int) * wi) * zi)) * bi) == 2 * (xi * yi * bi) - 2 * (wi * zi * bi)) by (nonlinear_arith);
    assert((((((1int + 1int) * xi) * zi) + (((1int + 1int) * wi) * yi)) * ci) == 2 * (xi * zi * ci) + 2 * (wi * yi * ci)) by (nonlinear_arith);
    assert((((((xi * xi) + (yi * yi)) + (zi * zi)) + (wi * wi)) - 1) * ai == xi * xi * ai + yi * yi * ai + zi * zi * ai + wi * wi * ai - ai) by (nonlinear_arith);
    assert(wi * ai * wi == wi * wi * ai) by (nonlinear_arith);
    assert(wi * bi * zi == wi * zi * bi) by (nonlinear_arith);
    assert(wi * ci * yi == wi * yi * ci) by (nonlinear_arith);
    assert(xi * ai * xi == xi * xi * ai) by (nonlinear_arith);
    assert(xi * bi * yi == xi * yi * bi) by (nonlinear_arith);
    assert(xi * ci * zi == xi * zi * ci) by (nonlinear_arith);
    assert(yi * ai * yi == yi * yi * ai) by (nonlinear_arith);
    assert(yi * bi * xi == xi * yi * bi) by (nonlinear_arith);
    assert(yi * ci * wi == wi * yi * ci) by (nonlinear_arith);
    assert(zi * ai * zi == zi * zi * ai) by (nonlinear_arith);
    assert(zi * bi * wi == wi * zi * bi) by (nonlinear_arith);
    assert(zi * ci * xi == xi * zi * ci) by (nonlinear_arith);
}

/// The integer polynomials of the y components of the sandwich product and
/// of the rotated vector differ by `(|q|² - 1)` times the y component of `v`.
/// Each product is expanded on its own, then the monomials are reordered.
proof fn lemma_sandwich_polynomial_y(wi: int, xi: int, yi: int, zi: int, ai: int, bi: int, ci: int)
    ensures
        ((((((((wi * 0int) - (xi * ai)) - (yi * bi)) - (zi * ci)) * (-yi)) - (((((wi * ai) + (xi * 0int)) + (yi * ci)) - (zi * bi)) * (-zi))) + (((((wi * bi) - (xi * ci)) + (yi * 0int)) + (zi * ai)) * wi)) + (((((wi * ci) + (xi * bi)) - (yi * ai)) + (zi * 0int)) * (-xi))) == (((((((1int + 1int) * xi) * yi) + (((1int + 1int) * wi) * zi)) * ai) + (((1int - (((1int + 1int) * xi) * xi)) - (((1int + 1int) * zi) * zi)) * bi)) + (((((1int + 1int) * yi) * zi) - (((1int + 1int) * wi) * xi)) * ci)) + (((((xi * xi) + (yi * yi)) + (zi * zi)) + (wi * wi)) - 1) * bi,
{
    assert((((((wi * 0int) - (xi * ai)) - (yi * bi)) - (zi * ci)) * (-yi)) == xi * ai * yi + yi * bi * yi + zi * ci * yi) by (nonlinear_arith);
    assert((((((wi * ai) + (xi * 0int)) + (yi * ci)) - (zi * bi)) * (-zi)) == -(wi * ai * zi) - yi * ci * zi + zi * bi * zi) by (nonlinear_arith);
    assert((((((wi * bi) - (xi * ci)) + (yi * 0int)) + (zi * ai)) * wi) == wi * bi * wi - xi * ci * wi + zi * ai * wi) by (nonlinear_arith);
    assert((((((wi * ci) + (xi * bi)) - (yi * ai)) + (zi * 0int)) * (-xi)) == -(wi * ci * xi) - xi * bi * xi + yi * ai * xi) by (nonlinear_arith);
    assert((((((1int + 1int) * xi) * yi) + (((1int + 1int) * wi) * zi)) * ai) == 2 * (xi * yi * ai) + 2 * (wi * zi * ai)) by (nonlinear_arith);
    assert((((1int - (((1int + 1int) * xi) * xi)) - (((1int + 1int) * zi) * zi)) * bi) == bi - 2 * (xi * xi * bi) - 2 * (zi * zi * bi)) by (nonlinear_arith);
    assert((((((1int + 1int) * yi) * zi) - (((1int + 1int) * wi) * xi)) * ci) == 2 * (yi * zi * ci) - 2 * (wi * xi * ci)) by (nonlinear_arith);
    assert((((((xi * xi) + (yi * yi)) + (zi * zi)) + (wi * wi)) - 1) * bi == xi * xi * bi + yi * yi * bi + zi * zi * bi + wi * wi * bi - bi) by (nonlinear_arith);
    assert(wi * ai * zi == wi * zi * ai) by (nonlinear_arith);
    assert(wi * bi * wi == wi * wi * bi) by (nonlinear_arith);
    assert(wi * ci * xi == wi * xi * ci) by (nonlinear_arith);
    assert(xi * ai * yi == xi * yi * ai) by (nonlinear_arith);
    assert(xi * bi * xi == xi * xi * bi) by (nonlinear_arith);
    assert(xi * ci * wi == wi * xi * ci) by (nonlinear_arith);
    assert(yi * ai * xi == xi * yi * ai) by (nonlinear_arith);
    assert(yi * bi * yi == yi * yi * bi) by (nonlinear_arith);
    assert(yi * ci * zi == yi * zi * ci) by (nonlinear_arith);
    assert(zi * ai * wi == wi * zi * ai) by (nonlinear_arith);
    assert(zi * bi * zi == zi * zi * bi) by (nonlinear_arith);
    assert(zi * ci * yi == yi * zi * ci) by (nonlinear_arith);
}

/// The integer polynomials of the z components of the sandwich product and
/// of the rotated vector differ by `(|q|² - 1)` times the z component of `v`.
/// Each product is expanded on its own, then the monomials are reordered.
proof fn lemma_sandwich_polynomial_z(wi: int, xi: int, yi: int, zi: int, ai: int, bi: int, ci: int)
    ensures
        ((((((((wi * 0int) - (xi * ai)) - (yi * bi)) - (zi * ci)) * (-zi)) + (((((wi * ai) + (xi * 0int)) + (yi * ci)) - (zi * bi)) * (-yi))) - (((((wi * bi) - (xi * ci)) + (yi * 0int)) + (zi * ai)) * (-xi))) + (((((wi * ci) + (xi * bi)) - (yi * ai)) + (zi * 0int)) * wi)) == (((((((1int + 1int) * xi) * zi) - (((1int + 1int) * wi) * yi)) * ai) + (((((1int + 1int) * yi) * zi) + (((1int + 1int) * wi) * xi)) * bi)) + (((1int - (((1int + 1int) * xi) * xi)) - (((1int + 1int) * yi) * yi)) * ci)) + (((((xi * xi) + (yi * yi)) + (zi * zi)) + (wi * wi)) - 1) * ci,
{
    assert((((((wi * 0int) - (xi * ai)) - (yi * bi)) - (zi * ci)) * (-zi)) == xi * ai * zi + yi * bi * zi + zi * ci * zi) by (nonlinear_arith);
    assert((((((wi * ai) + (xi * 0int)) + (yi * ci)) - (zi * bi)) * (-yi)) == -(wi * ai * yi) - yi * ci * yi + zi * bi * yi) by (nonlinear_arith);
    assert((((((wi * bi) - (xi * ci)) + (yi * 0int)) + (zi * ai)) * (-xi)) == -(wi * bi * xi) + xi * ci * xi - zi * ai * xi) by (nonlinear_arith);
    assert((((((wi * ci) + (xi * bi)) - (yi * ai)) + (zi * 0int)) * wi) == wi * ci * wi + xi * bi * wi - yi * ai * wi) by (nonlinear_arith);
    assert((((((1int + 1int) * xi) * zi) - (((1int + 1int) * wi) * yi)) * ai) == 2 * (xi * zi * ai) - 2 * (wi * yi * ai)) by (nonlinear_arith);
    assert((((((1int + 1int) * yi) * zi) + (((1int + 1int) * wi) * xi)) * bi) == 2 * (yi * zi * bi) + 2 * (wi * xi * bi)) by (nonlinear_arith);
    assert((((1int - (((1int + 1int) * xi) * xi)) - (((1int + 1int) * yi) * yi)) * ci) == ci - 2 * (xi * xi * ci) - 2 * (yi * yi * ci)) by (nonlinear_arith);
    assert((((((xi * xi) + (yi * yi)) + (zi * zi)) + (wi * wi)) - 1) * ci == xi * xi * ci + yi * yi * ci + zi * zi * ci + wi * wi * ci - ci) by (nonlinear_arith);
    assert(wi * ai * yi == wi * yi * ai) by (nonlinear_arith);
    assert(wi * bi * xi == wi * xi * bi) by (nonlinear_arith);
    assert(wi * ci * wi == wi * wi * ci) by (nonlinear_arith);
    assert(xi * ai * zi == xi * zi * ai) by (nonlinear_arith);
    assert(xi * bi * wi == wi * xi * bi) by (nonlinear_arith);
    assert(xi * ci * xi == xi * xi * ci) by (nonlinear_arith);
    assert(yi * ai * wi == wi * yi * ai) by (nonlinear_arith);
    assert(yi * bi * zi == yi * zi * bi) by (nonlinear_arith);
    assert(yi * ci * yi == yi * yi * ci) by (nonlinear_arith);
    assert(zi * ai * xi == xi * zi * ai) by (nonlinear_arith);
    assert(zi * bi * yi == yi * zi * bi) by (nonlinear_arith);
    assert(zi * ci * zi == zi * zi * ci) by (nonlinear_arith);
}

/// The x components agree: every operation wraps the integer polynomial of
/// its operands, and the two polynomials differ by a multiple of `|q|² - 1`.
proof fn lemma_sandwich_component_x(q: Quaternion<i64>, v: Vector3<i64>)
    requires
        q.norm_squared_spec() == 1i64,
    ensures
        apply_spec(rotation_spec(q.wxyz_spec()), v@)[0] == sandwich_spec(q.wxyz_spec(), v@)[0],
        sandwich_spec(q.wxyz_spec(), v@).len() == 3,
{
    reveal(sandwich_spec);
    let (wi, xi, yi, zi) = (q.w as int, q.xyz@[0] as int, q.xyz@[1] as int, q.xyz@[2] as int);
    let (ai, bi, ci) = (v@[0] as int, v@[1] as int, v@[2] as int);
    lemma_sandwich_leaves(q, v);
    lemma_dot3(rotation_spec(q.wxyz_spec())[0], v@);
    lemma_wrap64_times(xi, xi);
    lemma_wrap64_times(yi, yi);
    lemma_wrap64_plus((xi * xi), (yi * yi));
    lemma_wrap64_times(zi, zi);
    lemma_wrap64_plus(((xi * xi) + (yi * yi)), (zi * zi));
    lemma_wrap64_times(wi, wi);
    lemma_wrap64_plus((((xi * xi) + (yi * yi)) + (zi * zi)), (wi * wi));
    lemma_wrap64_times(wi, 0int);
    lemma_wrap64_times(xi, ai);
    lemma_wrap64_minus((wi * 0int), (xi * ai));
    lemma_wrap64_times(yi, bi);
    lemma_wrap64_minus(((wi * 0int) - (xi * ai)), (yi * bi));
    lemma_wrap64_times(zi, ci);
    lemma_wrap64_minus((((wi * 0int) - (xi * ai)) - (yi * bi)), (zi * ci));
    lemma_wrap64_negate(xi);
    lemma_wrap64_times(((((wi * 0int) - (xi * ai)) - (yi * bi)) - (zi * ci)), (-xi));
    lemma_wrap64_times(wi, ai);
    lemma_wrap64_times(xi, 0int);
    lemma_wrap64_plus((wi * ai), (xi * 0int));
    lemma_wrap64_times(yi, ci);
    lemma_wrap64_plus(((wi * ai) + (xi * 0int)), (yi * ci));
    lemma_wrap64_times(zi, bi);
    lemma_wrap64_minus((((wi * ai) + (xi * 0int)) + (yi * ci)), (zi * bi));
    lemma_wrap64_times(((((wi * ai) + (xi * 0int)) + (yi * ci)) - (zi * bi)), wi);
    lemma_wrap64_plus((((((wi * 0int) - (xi * ai)) - (yi * bi)) - (zi * ci)) * (-xi)), (((((wi * ai) + (xi * 0int)) + (yi * ci)) - (zi * bi)) * wi));
    lemma_wrap64_times(wi, bi);
    lemma_wrap64_times(xi, ci);
    lemma_wrap64_minus((wi * bi), (xi * ci));
    lemma_wrap64_times(yi, 0int);
    lemma_wrap64_plus(((wi * bi) - (xi * ci)), (yi * 0int));
    lemma_wrap64_times(zi, ai);
    lemma_wrap64_plus((((wi * bi) - (xi * ci)) + (yi * 0int)), (zi * ai));
    lemma_wrap64_negate(zi);
    lemma_wrap64_times(((((wi * bi) - (xi * ci)) + (yi * 0int)) + (zi * ai)), (-zi));
    lemma_wrap64_plus(((((((wi * 0int) - (xi * ai)) - (yi * bi)) - (zi * ci)) * (-xi)) + (((((wi * ai) + (xi * 0int)) + (yi * ci)) - (zi * bi)) * wi)), (((((wi * bi) - (xi * ci)) + (yi * 0int)) + (zi * ai)) * (-zi)));
    lemma_wrap64_times(wi, ci);
    lemma_wrap64_times(xi, bi);
    lemma_wrap64_plus((wi * ci), (xi * bi));
    lemma_wrap64_times(yi, ai);
    lemma_wrap64_minus(((wi * ci) + (xi * bi)), (yi * ai));
    lemma_wrap64_times(zi, 0int);
    lemma_wrap64_plus((((wi * ci) + (xi * bi)) - (yi * ai)), (zi * 0int));
    lemma_wrap64_negate(yi);
    lemma_wrap64_times(((((wi * ci) + (xi * bi)) - (yi * ai)) + (zi * 0int)), (-yi));
    lemma_wrap64_minus((((((((wi * 0int) - (xi * ai)) - (yi * bi)) - (zi * ci)) * (-xi)) + (((((wi * ai) + (xi * 0int)) + (yi * ci)) - (zi * bi)) * wi)) + (((((wi * bi) - (xi * ci)) + (yi * 0int)) + (zi * ai)) * (-zi))), (((((wi * ci) + (xi * bi)) - (yi * ai)) + (zi * 0int)) * (-yi)));
    lemma_wrap64_plus(1int, 1int);
    lemma_wrap64_times((1int + 1int), yi);
    lemma_wrap64_times(((1int + 1int) * yi), yi);
    lemma_wrap64_minus(1int, (((1int + 1int) * yi) * yi));
    lemma_wrap64_times((1int + 1int), zi);
    lemma_wrap64_times(((1int + 1int) * zi), zi);
    lemma_wrap64_minus((1int - (((1int + 1int) * yi) * yi)), (((1int + 1int) * zi) * zi));
    lemma_wrap64_times(((1int - (((1int + 1int) * yi) * yi)) - (((1int + 1int) * zi) * zi)), ai);
    lemma_wrap64_times((1int + 1int), xi);
    lemma_wrap64_times(((1int + 1int) * xi), yi);
    lemma_wrap64_times((1int + 1int), wi);
    lemma_wrap64_times(((1int + 1int) * wi), zi);
    lemma_wrap64_minus((((1int + 1int) * xi) * yi), (((1int + 1int) * wi) * zi));
    lemma_wrap64_times(((((1int + 1int) * xi) * yi) - (((1int + 1int) * wi) * zi)), bi);
    lemma_wrap64_plus((((1int - (((1int + 1int) * yi) * yi)) - (((1int + 1int) * zi) * zi)) * ai), (((((1int + 1int) * xi) * yi) - (((1int + 1int) * wi) * zi)) * bi));
    lemma_wrap64_times(((1int + 1int) * xi), zi);
    lemma_wrap64_times(((1int + 1int) * wi), yi);
    lemma_wrap64_plus((((1int + 1int) * xi) * zi), (((1int + 1int) * wi) * yi));
    lemma_wrap64_times(((((1int + 1int) * xi) * zi) + (((1int + 1int) * wi) * yi)), ci);
    lemma_wrap64_plus(((((1int - (((1int + 1int) * yi) * yi)) - (((1int + 1int) * zi) * zi)) * ai) + (((((1int + 1int) * xi) * yi) - (((1int + 1int) * wi) * zi)) * bi)), (((((1int + 1int) * xi) * zi) + (((1int + 1int) * wi) * yi)) * ci));
    lemma_sandwich_polynomial_x(wi, xi, yi, zi, ai, bi, ci);
    lemma_wrap64_plus_multiple((((((1int - (((1int + 1int) * yi) * yi)) - (((1int + 1int) * zi) * zi)) * ai) + (((((1int + 1int) * xi) * yi) - (((1int + 1int) * wi) * zi)) * bi)) + (((((1int + 1int) * xi) * zi) + (((1int + 1int) * wi) * yi)) * ci)), ((((xi * xi) + (yi * yi)) + (zi * zi)) + (wi * wi)), ai);
}

/// The y components agree: every operation wraps the integer polynomial of
/// its operands, and the two polynomials differ by a multiple of `|q|² - 1`.
proof fn lemma_sandwich_component_y(q: Quaternion<i64>, v: Vector3<i64>)
    requires
        q.norm_squared_spec() == 1i64,
    ensures
        apply_spec(rotation_spec(q.wxyz_spec()), v@)[1] == sandwich_spec(q.wxyz_spec(), v@)[1],
        sandwich_spec(q.wxyz_spec(), v@).len() == 3,
{
    reveal(sandwich_spec);
    let (wi, xi, yi, zi) = (q.w as int, q.xyz@[0] as int, q.xyz@[1] as int, q.xyz@[2] as int);
    let (ai, bi, ci) = (v@[0] as int, v@[1] as int, v@[2] as int);
    lemma_sandwich_leaves(q, v);
    lemma_dot3(rotation_spec(q.wxyz_spec())[1], v@);
    lemma_wrap64_times(xi, xi);
    lemma_wrap64_times(yi, yi);
    lemma_wrap64_plus((xi * xi), (yi * yi));
    lemma_wrap64_times(zi, zi);
    lemma_wrap64_plus(((xi * xi) + (yi * yi)), (zi * zi));
    lemma_wrap64_times(wi, wi);
    lemma_wrap64_plus((((xi * xi) + (yi * yi)) + (zi * zi)), (wi * wi));
    lemma_wrap64_times(wi, 0int);
    lemma_wrap64_times(xi, ai);
    lemma_wrap64_minus((wi * 0int), (xi * ai));
    lemma_wrap64_times(yi, bi);
    lemma_wrap64_minus(((wi * 0int) - (xi * ai)), (yi * bi));
    lemma_wrap64_times(zi, ci);
    lemma_wrap64_minus((((wi * 0int) - (xi * ai)) - (yi * bi)), (zi * ci));
    lemma_wrap64_negate(yi);
    lemma_wrap64_times(((((wi * 0int) - (xi * ai)) - (yi * bi)) - (zi * ci)), (-yi));
    lemma_wrap64_times(wi, ai);
    lemma_wrap64_times(xi, 0int);
    lemma_wrap64_plus((wi * ai), (xi * 0int));
    lemma_wrap64_times(yi, ci);
    lemma_wrap64_plus(((wi * ai) + (xi * 0int)), (yi * ci));
    lemma_wrap64_times(zi, bi);
    lemma_wrap64_minus((((wi * ai) + (xi * 0int)) + (yi * ci)), (zi * bi));
    lemma_wrap64_negate(zi);
    lemma_wrap64_times(((((wi * ai) + (xi * 0int)) + (yi * ci)) - (zi * bi)), (-zi));
    lemma_wrap64_minus((((((wi * 0int) - (xi * ai)) - (yi * bi)) - (zi * ci)) * (-yi)), (((((wi * ai) + (xi * 0int)) + (yi * ci)) - (zi * bi)) * (-zi)));
    lemma_wrap64_times(wi, bi);
    lemma_wrap64_times(xi, ci);
    lemma_wrap64_minus((wi * bi), (xi * ci));
    lemma_wrap64_times(yi, 0int);
    lemma_wrap64_plus(((wi * bi) - (xi * ci)), (yi * 0int));
    lemma_wrap64_times(zi, ai);
    lemma_wrap64_plus((((wi * bi) - (xi * ci)) + (yi * 0int)), (zi * ai));
    lemma_wrap64_times(((((wi * bi) - (xi * ci)) + (yi * 0int)) + (zi * ai)), wi);
    lemma_wrap64_plus(((((((wi * 0int) - (xi * ai)) - (yi * bi)) - (zi * ci)) * (-yi)) - (((((wi * ai) + (xi * 0int)) + (yi * ci)) - (zi * bi)) * (-zi))), (((((wi * bi) - (xi * ci)) + (yi * 0int)) + (zi * ai)) * wi));
    lemma_wrap64_times(wi, ci);
    lemma_wrap64_times(xi, bi);
    lemma_wrap64_plus((wi * ci), (xi * bi));
    lemma_wrap64_times(yi, ai);
    lemma_wrap64_minus(((wi * ci) + (xi * bi)), (yi * ai));
    lemma_wrap64_times(zi, 0int);
    lemma_wrap64_plus((((wi * ci) + (xi * bi)) - (yi * ai)), (zi * 0int));
    lemma_wrap64_negate(xi);
    lemma_wrap64_times(((((wi * ci) + (xi * bi)) - (yi * ai)) + (zi * 0int)), (-xi));
    lemma_wrap64_plus((((((((wi * 0int) - (xi * ai)) - (yi * bi)) - (zi * ci)) * (-yi)) - (((((wi * ai) + (xi * 0int)) + (yi * ci)) - (zi * bi)) * (-zi))) + (((((wi * bi) - (xi * ci)) + (yi * 0int)) + (zi * ai)) * wi)), (((((wi * ci) + (xi * bi)) - (yi * ai)) + (zi * 0int)) * (-xi)));
    lemma_wrap64_plus(1int, 1int);
    lemma_wrap64_times((1int + 1int), xi);
    lemma_wrap64_times(((1int + 1int) * xi), yi);
    lemma_wrap64_times((1int + 1int), wi);
    lemma_wrap64_times(((1int + 1int) * wi), zi);
    lemma_wrap64_plus((((1int + 1int) * xi) * yi), (((1int + 1int) * wi) * zi));
    lemma_wrap64_times(((((1int + 1int) * xi) * yi) + (((1int + 1int) * wi) * zi)), ai);
    lemma_wrap64_times(((1int + 1int) * xi), xi);
    lemma_wrap64_minus(1int, (((1int + 1int) * xi) * xi));
    lemma_wrap64_times((1int + 1int), zi);
    lemma_wrap64_times(((1int + 1int) * zi), zi);
    lemma_wrap64_minus((1int - (((1int + 1int) * xi) * xi)), (((1int + 1int) * zi) * zi));
    lemma_wrap64_times(((1int - (((1int + 1int) * xi) * xi)) - (((1int + 1int) * zi) * zi)), bi);
    lemma_wrap64_plus((((((1int + 1int) * xi) * yi) + (((1int + 1int) * wi) * zi)) * ai), (((1int - (((1int + 1int) * xi) * xi)) - (((1int + 1int) * zi) * zi)) * bi));
    lemma_wrap64_times((1int + 1int), yi);
    lemma_wrap64_times(((1int + 1int) * yi), zi);
    lemma_wrap64_times(((1int + 1int) * wi), xi);
    lemma_wrap64_minus((((1int + 1int) * yi) * zi), (((1int + 1int) * wi) * xi));
    lemma_wrap64_times(((((1int + 1int) * yi) * zi) - (((1int + 1int) * wi) * xi)), ci);
    lemma_wrap64_plus(((((((1int + 1int) * xi) * yi) + (((1int + 1int) * wi) * zi)) * ai) + (((1int - (((1int + 1int) * xi) * xi)) - (((1int + 1int) * zi) * zi)) * bi)), (((((1int + 1int) * yi) * zi) - (((1int + 1int) * wi) * xi)) * ci));
    lemma_sandwich_polynomial_y(wi, xi, yi, zi, ai, bi, ci);
    lemma_wrap64_plus_multiple((((((((1int + 1int) * xi) * yi) + (((1int + 1int) * wi) * zi)) * ai) + (((1int - (((1int + 1int) * xi) * xi)) - (((1int + 1int) * zi) * zi)) * bi)) + (((((1int + 1int) * yi) * zi) - (((1int + 1int) * wi) * xi)) * ci)), ((((xi * xi) + (yi * yi)) + (zi * zi)) + (wi * wi)), bi);
}

/// The z components agree: every operation wraps the integer polynomial of
/// its operands, and the two polynomials differ by a multiple of `|q|² - 1`.
proof fn lemma_sandwich_component_z(q: Quaternion<i64>, v: Vector3<i64>)
    requires
        q.norm_squared_spec() == 1i64,
    ensures
        apply_spec(rotation_spec(q.wxyz_spec()), v@)[2] == sandwich_spec(q.wxyz_spec(), v@)[2],
        sandwich_spec(q.wxyz_spec(), v@).len() == 3,
{
    reveal(sandwich_spec);
    let (wi, xi, yi, zi) = (q.w as int, q.xyz@[0] as int, q.xyz@[1] as int, q.xyz@[2] as int);
    let (ai, bi, ci) = (v@[0] as int, v@[1] as int, v@[2] as int);
    lemma_sandwich_leaves(q, v);
    lemma_dot3(rotation_spec(q.wxyz_spec())[2], v@);
    lemma_wrap64_times(xi, xi);
    lemma_wrap64_times(yi, yi);
    lemma_wrap64_plus((xi * xi), (yi * yi));
    lemma_wrap64_times(zi, zi);
    lemma_wrap64_plus(((xi * xi) + (yi * yi)), (zi * zi));
    lemma_wrap64_times(wi, wi);
    lemma_wrap64_plus((((xi * xi) + (yi * yi)) + (zi * zi)), (wi * wi));
    lemma_wrap64_times(wi, 0int);
    lemma_wrap64_times(xi, ai);
    lemma_wrap64_minus((wi * 0int), (xi * ai));
    lemma_wrap64_times(yi, bi);
    lemma_wrap64_minus(((wi * 0int) - (xi * ai)), (yi * bi));
    lemma_wrap64_times(zi, ci);
    lemma_wrap64_minus((((wi * 0int) - (xi * ai)) - (yi * bi)), (zi * ci));
    lemma_wrap64_negate(zi);
    lemma_wrap64_times(((((wi * 0int) - (xi * ai)) - (yi * bi)) - (zi * ci)), (-zi));
    lemma_wrap64_times(wi, ai);
    lemma_wrap64_times(xi, 0int);
    lemma_wrap64_plus((wi * ai), (xi * 0int));
    lemma_wrap64_times(yi, ci);
    lemma_wrap64_plus(((wi * ai) + (xi * 0int)), (yi * ci));
    lemma_wrap64_times(zi, bi);
    lemma_wrap64_minus((((wi * ai) + (xi * 0int)) + (yi * ci)), (zi * bi));
    lemma_wrap64_negate(yi);
    lemma_wrap64_times(((((wi * ai) + (xi * 0int)) + (yi * ci)) - (zi * bi)), (-yi));
    lemma_wrap64_plus((((((wi * 0int) - (xi * ai)) - (yi * bi)) - (zi * ci)) * (-zi)), (((((wi * ai) + (xi * 0int)) + (yi * ci)) - (zi * bi)) * (-yi)));
    lemma_wrap64_times(wi, bi);
    lemma_wrap64_times(xi, ci);
    lemma_wrap64_minus((wi * bi), (xi * ci));
    lemma_wrap64_times(yi, 0int);
    lemma_wrap64_plus(((wi * bi) - (xi * ci)), (yi * 0int));
    lemma_wrap64_times(zi, ai);
    lemma_wrap64_plus((((wi * bi) - (xi * ci)) + (yi * 0int)), (zi * ai));
    lemma_wrap64_negate(xi);
    lemma_wrap64_times(((((wi * bi) - (xi * ci)) + (yi * 0int)) + (zi * ai)), (-xi));
    lemma_wrap64_minus(((((((wi * 0int) - (xi * ai)) - (yi * bi)) - (zi * ci)) * (-zi)) + (((((wi * ai) + (xi * 0int)) + (yi * ci)) - (zi * bi)) * (-yi))), (((((wi * bi) - (xi * ci)) + (yi * 0int)) + (zi * ai)) * (-xi)));
    lemma_wrap64_times(wi, ci);
    lemma_wrap64_times(xi, bi);
    lemma_wrap64_plus((wi * ci), (xi * bi));
    lemma_wrap64_times(yi, ai);
    lemma_wrap64_minus(((wi * ci) + (xi * bi)), (yi * ai));
    lemma_wrap64_times(zi, 0int);
    lemma_wrap64_plus((((wi * ci) + (xi * bi)) - (yi * ai)), (zi * 0int));
    lemma_wrap64_times(((((wi * ci) + (xi * bi)) - (yi * ai)) + (zi * 0int)), wi);
    lemma_wrap64_plus((((((((wi * 0int) - (xi * ai)) - (yi * bi)) - (zi * ci)) * (-zi)) + (((((wi * ai) + (xi * 0int)) + (yi * ci)) - (zi * bi)) * (-yi))) - (((((wi * bi) - (xi * ci)) + (yi * 0int)) + (zi * ai)) * (-xi))), (((((wi * ci) + (xi * bi)) - (yi * ai)) + (zi * 0int)) * wi));
    lemma_wrap64_plus(1int, 1int);
    lemma_wrap64_times((1int + 1int), xi);
    lemma_wrap64_times(((1int + 1int) * xi), zi);
    lemma_wrap64_times((1int + 1int), wi);
    lemma_wrap64_times(((1int + 1int) * wi), yi);
    lemma_wrap64_minus((((1int + 1int) * xi) * zi), (((1int + 1int) * wi) * yi));
    lemma_wrap64_times(((((1int + 1int) * xi) * zi) - (((1int + 1int) * wi) * yi)), ai);
    lemma_wrap64_times((1int + 1int), yi);
    lemma_wrap64_times(((1int + 1int) * yi), zi);
    lemma_wrap64_times(((1int + 1int) * wi), xi);
    lemma_wrap64_plus((((1int + 1int) * yi) * zi), (((1int + 1int) * wi) * xi));
    lemma_wrap64_times(((((1int + 1int) * yi) * zi) + (((1int + 1int) * wi) * xi)), bi);
    lemma_wrap64_plus((((((1int + 1int) * xi) * zi) - (((1int + 1int) * wi) * yi)) * ai), (((((1int + 1int) * yi) * zi) + (((1int + 1int) * wi) * xi)) * bi));
    lemma_wrap64_times(((1int + 1int) * xi), xi);
    lemma_wrap64_minus(1int, (((1int + 1int) * xi) * xi));
    lemma_wrap64_times(((1int + 1int) * yi), yi);
    lemma_wrap64_minus((1int - (((1int + 1int) * xi) * xi)), (((1int + 1int) * yi) * yi));
    lemma_wrap64_times(((1int - (((1int + 1int) * xi) * xi)) - (((1int + 1int) * yi) * yi)), ci);
    lemma_wrap64_plus(((((((1int + 1int) * xi) * zi) - (((1int + 1int) * wi) * yi)) * ai) + (((((1int + 1int) * yi) * zi) + (((1int + 1int) * wi) * xi)) * bi)), (((1int - (((1int + 1int) * xi) * xi)) - (((1int + 1int) * yi) * yi)) * ci));
    lemma_sandwich_polynomial_z(wi, xi, yi, zi, ai, bi, ci);
    lemma_wrap64_plus_multiple((((((((1int + 1int) * xi) * zi) - (((1int + 1int) * wi) * yi)) * ai) + (((((1int + 1int) * yi) * zi) + (((1int + 1int) * wi) * xi)) * bi)) + (((1int - (((1int + 1int) * xi) * xi)) - (((1int + 1int) * yi) * yi)) * ci)), ((((xi * xi) + (yi * yi)) + (zi * zi)) + (wi * wi)), ci);
}


proof fn lemma_three_entries_equal<S>(u: Seq<S>, t: Seq<S>)
    requires
        u.len() == 3,
        t.len() == 3,
        u[0] == t[0],
        u[1] == t[1],
        u[2] == t[2],
    ensures
        u == t,
{
    assert(u =~= t);
}

/// For a quaternion `q` of unit norm, rotating `v` by the rotation matrix of
/// `q` gives the vector part of `q * pure(v) * conjugate(q)`. Proved for
/// `i64`, whose arithmetic is the ring of integers modulo 2^64: the two sides
/// differ by `(|q|² - 1) v` as integer polynomials.
pub proof fn lemma_rotation_matches_sandwich(q: Quaternion<i64>, v: Vector3<i64>)
    requires
        q.norm_squared_spec() == 1i64,
    ensures
        apply_spec(rotation_spec(q.wxyz_spec()), v@) == sandwich_spec(q.wxyz_spec(), v@),
{
    lemma_sandwich_component_x(q, v);
    lemma_sandwich_component_y(q, v);
    lemma_sandwich_component_z(q, v);
    lemma_three_entries_equal(
        apply_spec(rotation_spec(q.wxyz_spec()), v@),
        sandwich_spec(q.wxyz_spec(), v@),
    );
}

} // verus!

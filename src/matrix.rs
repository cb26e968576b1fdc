use vstd::prelude::*;

use crate::algebra::{
    apply_spec, diagonal_spec, dot_spec, fill_spec, has_shape, identity_spec, lemma_entries_equal,
    lemma_identity_product_left, lemma_identity_product_right, lemma_matrix_product_assoc,
    matrix_product, transpose_spec,
};
use crate::angle::Angle;
use crate::functions::{
    look_at, look_at_spec, mat2_mul_mat2, mat3_mul_mat3, mat4_mul_mat4, mat_fill, mat_identity_fill,
    mat_transpose, orthographic, orthographic_spec, perspective, perspective_spec, rotation_x,
    rotation_x_spec, rotation_y, rotation_y_spec, rotation_z, rotation_z_spec, translation,
    translation_spec,
};
use crate::scalar::{Real, Scalar};
use crate::vector::{Vector, Vector3};

verus! {

/// A matrix of `M` rows of `N` scalars, stored row-major.
#[derive(Clone, Copy, Debug)]
pub struct Matrix<const M: usize, const N: usize, S>(pub [[S; N]; M]);

pub type Mat2<S> = Matrix<2, 2, S>;

pub type Mat3<S> = Matrix<3, 3, S>;

pub type Mat4<S> = Matrix<4, 4, S>;

impl<const M: usize, const N: usize, S> View for Matrix<M, N, S> {
    type V = Seq<Seq<S>>;

    /// The rows, each as the sequence of its entries.
    open spec fn view(&self) -> Seq<Seq<S>> {
        Seq::new(M as nat, |i: int| self.0[i]@)
    }
}

impl<const M: usize, const N: usize, S> Matrix<M, N, S> {
    /// The view has `M` rows of `N` entries, and its entries are those of the array.
    pub proof fn lemma_shape(self)
        ensures
            has_shape(self@, M as nat, N as nat),
            forall|i: int, j: int|
                0 <= i < M && 0 <= j < N ==> #[trigger] self@[i][j] == self.0[i][j],
    {
    }
}

impl<const M: usize, const N: usize, S: Scalar> Matrix<M, N, S> {
    /// The matrix with every entry zero.
    pub fn zero() -> (r: Self)
        ensures
            r@ == fill_spec(M as nat, N as nat, S::zero_spec()),
    {
        mat_fill(S::zero())
    }

    /// The matrix with every entry one.
    pub fn one() -> (r: Self)
        ensures
            r@ == fill_spec(M as nat, N as nat, S::one_spec()),
    {
        mat_fill(S::one())
    }

    /// The `N`-by-`M` matrix whose rows are the columns of this one.
    pub fn transpose(self) -> (r: Matrix<N, M, S>)
        ensures
            r@ == transpose_spec(self@, N as nat),
    {
        mat_transpose(self)
    }
}

/// Square matrices: the identity and its scalar multiples.
pub trait SquareMatrix<const L: usize, S: Scalar>: View<V = Seq<Seq<S>>> + Sized {
    fn identity() -> (r: Self)
        ensures
            r@ == identity_spec::<S>(L as nat),
    ;

    /// The matrix with `value` on the diagonal and zero elsewhere.
    fn identity_fill(value: S) -> (r: Self)
        ensures
            r@ == diagonal_spec(L as nat, value),
    ;
}

impl<const L: usize, S: Scalar> SquareMatrix<L, S> for Matrix<L, L, S> {
    fn identity() -> (r: Self) {
        mat_identity_fill(S::one())
    }

    fn identity_fill(value: S) -> (r: Self) {
        mat_identity_fill(value)
    }
}

impl<S: Scalar> vstd::std_specs::ops::MulSpecImpl for Matrix<2, 2, S> {
    /// The product is given by the `ensures` of `mul` itself.
    open spec fn obeys_mul_spec() -> bool {
        false
    }

    open spec fn mul_req(self, rhs: Self) -> bool {
        true
    }

    open spec fn mul_spec(self, rhs: Self) -> Self {
        arbitrary()
    }
}

impl<S: Scalar> core::ops::Mul for Matrix<2, 2, S> {
    type Output = Self;

    fn mul(self, rhs: Self) -> (r: Self)
        ensures
            r@ == matrix_product(self@, rhs@, 2),
    {
        mat2_mul_mat2(self, rhs)
    }
}

impl<S: Scalar> vstd::std_specs::ops::MulSpecImpl for Matrix<3, 3, S> {
    /// The product is given by the `ensures` of `mul` itself.
    open spec fn obeys_mul_spec() -> bool {
        false
    }

    open spec fn mul_req(self, rhs: Self) -> bool {
        true
    }

    open spec fn mul_spec(self, rhs: Self) -> Self {
        arbitrary()
    }
}

impl<S: Scalar> core::ops::Mul for Matrix<3, 3, S> {
    type Output = Self;

    fn mul(self, rhs: Self) -> (r: Self)
        ensures
            r@ == matrix_product(self@, rhs@, 3),
    {
        mat3_mul_mat3(self, rhs)
    }
}

impl<S: Scalar> vstd::std_specs::ops::MulSpecImpl for Matrix<4, 4, S> {
    /// The product is given by the `ensures` of `mul` itself.
    open spec fn obeys_mul_spec() -> bool {
        false
    }

    open spec fn mul_req(self, rhs: Self) -> bool {
        true
    }

    open spec fn mul_spec(self, rhs: Self) -> Self {
        arbitrary()
    }
}

impl<S: Scalar> core::ops::Mul for Matrix<4, 4, S> {
    type Output = Self;

    fn mul(self, rhs: Self) -> (r: Self)
        ensures
            r@ == matrix_product(self@, rhs@, 4),
    {
        mat4_mul_mat4(self, rhs)
    }
}

/// Multiplying 4-by-4 matrices is associative: `(a * b) * c == a * (b * c)`.
pub proof fn lemma_mat4_mul_assoc<S: Scalar>(a: Mat4<S>, b: Mat4<S>, c: Mat4<S>)
    ensures
        matrix_product(matrix_product(a@, b@, 4), c@, 4) == matrix_product(
            a@,
            matrix_product(b@, c@, 4),
            4,
        ),
{
    a.lemma_shape();
    b.lemma_shape();
    c.lemma_shape();
    lemma_matrix_product_assoc(a@, b@, c@, 4, 4, 4, 4);
}

/// The 4-by-4 identity is a unit on both sides: `I * m == m` and `m * I == m`.
pub proof fn lemma_mat4_identity_mul<S: Scalar>(m: Mat4<S>)
    ensures
        matrix_product(identity_spec::<S>(4), m@, 4) == m@,
        matrix_product(m@, identity_spec::<S>(4), 4) == m@,
{
    m.lemma_shape();
    lemma_identity_product_left(m@, 4, 4);
    lemma_identity_product_right(m@, 4, 4);
}

impl<const M: usize, const N: usize, S: Scalar> Matrix<M, N, S> {
    /// The product of this matrix with the column vector `v`.
    pub fn transform(&self, v: Vector<N, S>) -> (r: Vector<M, S>)
        ensures
            r@ == apply_spec(self@, v@),
    {
        let mut out: [S; M] = [S::zero(); M];
        let mut i: usize = 0;
        while i < M
            invariant
                i <= M,
                forall|k: int| 0 <= k < i ==> #[trigger] out@[k] == dot_spec(self@[k], v@),
            decreases M - i,
        {
            out[i] = Vector(self.0[i]).dot_product(v);
            i += 1;
        }
        let r = Vector(out);
        assert(r@ =~= apply_spec(self@, v@));
        r
    }
}

/// The `n`-by-`n` matrix that holds `m` in its top-left block, as far as
/// both sizes reach, and the identity elsewhere: a smaller matrix is
/// embedded, a larger one truncated.
pub open spec fn resize_spec<S: Scalar>(m: Seq<Seq<S>>, n: nat) -> Seq<Seq<S>> {
    Seq::new(
        n,
        |i: int|
            Seq::new(
                n,
                |j: int|
                    if i < m.len() && j < m.len() {
                        m[i][j]
                    } else if i == j {
                        S::one_spec()
                    } else {
                        S::zero_spec()
                    },
            ),
    )
}

fn resized<const K: usize, const L: usize, S: Scalar>(m: &Matrix<K, K, S>) -> (r: Matrix<L, L, S>)
    ensures
        r@ == resize_spec(m@, L as nat),
{
    let mut out = mat_identity_fill::<L, S>(S::one());
    let n: usize = if K < L {
        K
    } else {
        L
    };
    proof {
        out.lemma_shape();
        assert forall|a: int, b: int| 0 <= a < L && 0 <= b < L implies #[trigger] out.0[a][b] == (if a
            == b {
            S::one_spec()
        } else {
            S::zero_spec()
        }) by {
            assert(out@[a][b] == out.0[a][b]);
        }
    }
    let mut i: usize = 0;
    while i < n
        invariant
            n <= K,
            n <= L,
            i <= n,
            forall|a: int, b: int|
                0 <= a < L && 0 <= b < L ==> #[trigger] out.0[a][b] == (if a < i && b < n {
                    m.0[a][b]
                } else if a == b {
                    S::one_spec()
                } else {
                    S::zero_spec()
                }),
        decreases n - i,
    {
        let mut row = out.0[i];
        let mut j: usize = 0;
        while j < n
            invariant
                n <= K,
                n <= L,
                i < n,
                j <= n,
                forall|b: int|
                    0 <= b < L ==> #[trigger] row[b] == (if b < j {
                        m.0[i as int][b]
                    } else if i == b {
                        S::one_spec()
                    } else {
                        S::zero_spec()
                    }),
            decreases n - j,
        {
            row[j] = m.0[i][j];
            j += 1;
        }
        out.0[i] = row;
        i += 1;
    }
    proof {
        out.lemma_shape();
        m.lemma_shape();
        lemma_entries_equal(out@, resize_spec(m@, L as nat), L as nat, L as nat);
    }
    out
}

/// Conversion between the square sizes. Lossy both ways: a larger matrix
/// loses all but its top-left block, a smaller one is completed by the identity.
pub trait MatrixConversion<S: Scalar>: View<V = Seq<Seq<S>>> {
    fn mat2(&self) -> (r: Mat2<S>)
        ensures
            r@ == resize_spec(self@, 2),
    ;

    fn mat3(&self) -> (r: Mat3<S>)
        ensures
            r@ == resize_spec(self@, 3),
    ;

    fn mat4(&self) -> (r: Mat4<S>)
        ensures
            r@ == resize_spec(self@, 4),
    ;
}

impl<const K: usize, S: Scalar> MatrixConversion<S> for Matrix<K, K, S> {
    fn mat2(&self) -> (r: Mat2<S>) {
        resized(self)
    }

    fn mat3(&self) -> (r: Mat3<S>) {
        resized(self)
    }

    fn mat4(&self) -> (r: Mat4<S>) {
        resized(self)
    }
}

/// The sine and cosine of an angle, taken in radians.
pub open spec fn sin_of<S: Real>(angle: Angle<S>) -> S {
    angle.to_radians_spec().magnitude_spec().sin_spec()
}

pub open spec fn cos_of<S: Real>(angle: Angle<S>) -> S {
    angle.to_radians_spec().magnitude_spec().cos_spec()
}

impl<S: Real> Matrix<3, 3, S> {
    pub fn rotation_x(angle: Angle<S>) -> (r: Mat3<S>)
        ensures
            r@ == rotation_x_spec(sin_of(angle), cos_of(angle)),
    {
        rotation_x(angle.to_radians().to_inner())
    }

    pub fn rotation_y(angle: Angle<S>) -> (r: Mat3<S>)
        ensures
            r@ == rotation_y_spec(sin_of(angle), cos_of(angle)),
    {
        rotation_y(angle.to_radians().to_inner())
    }

    pub fn rotation_z(angle: Angle<S>) -> (r: Mat3<S>)
        ensures
            r@ == rotation_z_spec(sin_of(angle), cos_of(angle)),
    {
        rotation_z(angle.to_radians().to_inner())
    }
}

impl<S: Real> Matrix<4, 4, S> {
    pub fn rotation_x(angle: Angle<S>) -> (r: Mat4<S>)
        ensures
            r@ == resize_spec(rotation_x_spec(sin_of(angle), cos_of(angle)), 4),
    {
        rotation_x(angle.to_radians().to_inner()).mat4()
    }

    pub fn rotation_y(angle: Angle<S>) -> (r: Mat4<S>)
        ensures
            r@ == resize_spec(rotation_y_spec(sin_of(angle), cos_of(angle)), 4),
    {
        rotation_y(angle.to_radians().to_inner()).mat4()
    }

    pub fn rotation_z(angle: Angle<S>) -> (r: Mat4<S>)
        ensures
            r@ == resize_spec(rotation_z_spec(sin_of(angle), cos_of(angle)), 4),
    {
        rotation_z(angle.to_radians().to_inner()).mat4()
    }

    pub fn perspective(aspect_ratio: S, fov: Angle<S>, near: S, far: S) -> (r: Mat4<S>)
        ensures
            r@ == perspective_spec(
                aspect_ratio,
                fov.to_radians_spec().magnitude_spec(),
                near,
                far,
            ),
    {
        perspective(aspect_ratio, fov.to_radians().to_inner(), near, far)
    }

    pub fn orthographic(left: S, right: S, bottom: S, top: S, near: S, far: S) -> (r: Mat4<S>)
        ensures
            r@ == orthographic_spec(left, right, bottom, top, near, far),
    {
        orthographic(left, right, bottom, top, near, far)
    }

    pub fn look_at(eye: Vector3<S>, center: Vector3<S>, up: Vector3<S>) -> (r: Self)
        ensures
            r@ == look_at_spec(eye@, center@, up@),
    {
        look_at(eye, center, up)
    }
}

impl<S: Scalar> Matrix<4, 4, S> {
    pub fn translation(offset: Vector3<S>) -> (r: Mat4<S>)
        ensures
            r@ == translation_spec(offset@),
    {
        translation(offset)
    }
}

} // verus!

use vstd::prelude::*;

use crate::algebra::{cross_spec, dot_prefix, dot_spec};
use crate::scalar::{Real, Scalar};

verus! {

/// An ordered sequence of `L` scalars.
#[derive(Clone, Copy, Debug)]
pub struct Vector<const L: usize, S>(pub [S; L]);

pub type Vector2<S> = Vector<2, S>;

pub type Vector3<S> = Vector<3, S>;

pub type Vector4<S> = Vector<4, S>;

impl<const L: usize, S> View for Vector<L, S> {
    type V = Seq<S>;

    open spec fn view(&self) -> Seq<S> {
        self.0@
    }
}

/// Each component of `v` divided by `d`.
pub open spec fn divided_spec<S: Real>(v: Seq<S>, d: S) -> Seq<S> {
    Seq::new(v.len(), |i: int| v[i].divide_spec(d))
}

/// The Euclidean length of `v`: the square root of its dot product with itself.
pub open spec fn magnitude_spec<S: Real>(v: Seq<S>) -> S {
    dot_spec(v, v).sqrt_spec()
}

/// Each component of `v` with its sign flipped.
pub open spec fn negated_spec<S: Scalar>(v: Seq<S>) -> Seq<S> {
    Seq::new(v.len(), |i: int| v[i].negate_spec())
}

/// The componentwise difference `a - b`.
pub open spec fn difference_spec<S: Scalar>(a: Seq<S>, b: Seq<S>) -> Seq<S> {
    Seq::new(a.len(), |i: int| a[i].minus_spec(b[i]))
}

impl<const L: usize, S: Scalar> Vector<L, S> {
    /// The vector with every component zero.
    pub fn zero() -> (r: Self)
        ensures
            r@ == Seq::new(L as nat, |i: int| S::zero_spec()),
    {
        let r = Vector([S::zero(); L]);
        assert(r@ =~= Seq::new(L as nat, |i: int| S::zero_spec()));
        r
    }

    /// The sum of the componentwise products.
    pub fn dot_product(&self, b: Self) -> (r: S)
        ensures
            r == dot_spec(self@, b@),
    {
        let mut dot = S::zero();
        let mut i: usize = 0;
        while i < L
            invariant
                i <= L,
                dot == dot_prefix(self@, b@, i as int),
            decreases L - i,
        {
            dot = dot.plus(self.0[i].times(b.0[i]));
            i += 1;
        }
        dot
    }
}

impl<const L: usize, S: Real> Vector<L, S> {
    /// The square root of the sum of the squared components.
    pub fn magnitude(&self) -> (r: S)
        ensures
            r == magnitude_spec(self@),
    {
        self.dot_product(*self).square_root()
    }

    /// Divides every component by the magnitude, in place, and returns the
    /// result. A zero vector divides by zero: what that gives is the
    /// scalar's own affair.
    pub fn normalize(&mut self) -> (r: Self)
        ensures
            final(self)@ == divided_spec(old(self)@, magnitude_spec(old(self)@)),
            r == *final(self),
    {
        let m = self.magnitude();
        let ghost before = self@;
        let mut i: usize = 0;
        while i < L
            invariant
                i <= L,
                m == magnitude_spec(before),
                before.len() == L,
                self@.len() == L,
                forall|k: int| 0 <= k < i ==> #[trigger] self@[k] == before[k].divide_spec(m),
                forall|k: int| i <= k < L ==> #[trigger] self@[k] == before[k],
            decreases L - i,
        {
            let c = self.0[i];
            self.0[i] = c.divide(m);
            i += 1;
        }
        assert(self@ =~= divided_spec(before, m));
        *self
    }

    /// The normalized copy of this vector; this one is left as it is.
    pub fn normalized(&self) -> (r: Self)
        ensures
            r@ == divided_spec(self@, magnitude_spec(self@)),
    {
        let mut v = *self;
        v.normalize()
    }
}

impl<S: Scalar> Vector<2, S> {
    pub fn x(&self) -> (r: S)
        ensures
            r == self@[0],
    {
        self.0[0]
    }

    pub fn y(&self) -> (r: S)
        ensures
            r == self@[1],
    {
        self.0[1]
    }

    /// The unit vector along positive y.
    pub fn up() -> (r: Self)
        ensures
            r@ == seq![S::zero_spec(), S::one_spec()],
    {
        let (o, z) = (S::one(), S::zero());
        let r = Vector([z, o]);
        assert(r@ =~= seq![S::zero_spec(), S::one_spec()]);
        r
    }

    /// The unit vector along negative y.
    pub fn down() -> (r: Self)
        ensures
            r@ == seq![S::zero_spec(), S::one_spec().negate_spec()],
    {
        let (o, z) = (S::one(), S::zero());
        let r = Vector([z, o.negate()]);
        assert(r@ =~= seq![S::zero_spec(), S::one_spec().negate_spec()]);
        r
    }

    /// The unit vector along positive x.
    pub fn right() -> (r: Self)
        ensures
            r@ == seq![S::one_spec(), S::zero_spec()],
    {
        let (o, z) = (S::one(), S::zero());
        let r = Vector([o, z]);
        assert(r@ =~= seq![S::one_spec(), S::zero_spec()]);
        r
    }

    /// The unit vector along negative x.
    pub fn left() -> (r: Self)
        ensures
            r@ == seq![S::one_spec().negate_spec(), S::zero_spec()],
    {
        let (o, z) = (S::one(), S::zero());
        let r = Vector([o.negate(), z]);
        assert(r@ =~= seq![S::one_spec().negate_spec(), S::zero_spec()]);
        r
    }
}

impl<S: Scalar> Vector<3, S> {
    /// The three components as a tuple.
    pub fn x_y_z(&self) -> (r: (S, S, S))
        ensures
            r == (self@[0], self@[1], self@[2]),
    {
        (self.0[0], self.0[1], self.0[2])
    }

    /// The right-handed cross product `self × b`.
    pub fn cross_product(&self, b: Self) -> (r: Self)
        ensures
            r@ == cross_spec(self@, b@),
    {
        let (a_x, a_y, a_z) = self.x_y_z();
        let (b_x, b_y, b_z) = b.x_y_z();
        let r = Vector(
            [
                a_y.times(b_z).minus(a_z.times(b_y)),
                a_z.times(b_x).minus(a_x.times(b_z)),
                a_x.times(b_y).minus(a_y.times(b_x)),
            ],
        );
        assert(r@ =~= cross_spec(self@, b@));
        r
    }

    pub fn x(&self) -> (r: S)
        ensures
            r == self@[0],
    {
        self.0[0]
    }

    pub fn y(&self) -> (r: S)
        ensures
            r == self@[1],
    {
        self.0[1]
    }

    pub fn z(&self) -> (r: S)
        ensures
            r == self@[2],
    {
        self.0[2]
    }

    /// The unit vector along positive y.
    pub fn up() -> (r: Self)
        ensures
            r@ == seq![S::zero_spec(), S::one_spec(), S::zero_spec()],
    {
        let (o, z) = (S::one(), S::zero());
        let r = Vector([z, o, z]);
        assert(r@ =~= seq![S::zero_spec(), S::one_spec(), S::zero_spec()]);
        r
    }

    /// The unit vector along negative y.
    pub fn down() -> (r: Self)
        ensures
            r@ == seq![S::zero_spec(), S::one_spec().negate_spec(), S::zero_spec()],
    {
        let (o, z) = (S::one(), S::zero());
        let r = Vector([z, o.negate(), z]);
        assert(r@ =~= seq![S::zero_spec(), S::one_spec().negate_spec(), S::zero_spec()]);
        r
    }

    /// The unit vector along positive x.
    pub fn right() -> (r: Self)
        ensures
            r@ == seq![S::one_spec(), S::zero_spec(), S::zero_spec()],
    {
        let (o, z) = (S::one(), S::zero());
        let r = Vector([o, z, z]);
        assert(r@ =~= seq![S::one_spec(), S::zero_spec(), S::zero_spec()]);
        r
    }

    /// The unit vector along negative x.
    pub fn left() -> (r: Self)
        ensures
            r@ == seq![S::one_spec().negate_spec(), S::zero_spec(), S::zero_spec()],
    {
        let (o, z) = (S::one(), S::zero());
        let r = Vector([o.negate(), z, z]);
        assert(r@ =~= seq![S::one_spec().negate_spec(), S::zero_spec(), S::zero_spec()]);
        r
    }

    /// The unit vector along positive z.
    pub fn forward() -> (r: Self)
        ensures
            r@ == seq![S::zero_spec(), S::zero_spec(), S::one_spec()],
    {
        let (o, z) = (S::one(), S::zero());
        let r = Vector([z, z, o]);
        assert(r@ =~= seq![S::zero_spec(), S::zero_spec(), S::one_spec()]);
        r
    }

    /// The unit vector along negative z.
    pub fn backward() -> (r: Self)
        ensures
            r@ == seq![S::zero_spec(), S::zero_spec(), S::one_spec().negate_spec()],
    {
        let (o, z) = (S::one(), S::zero());
        let r = Vector([z, z, o.negate()]);
        assert(r@ =~= seq![S::zero_spec(), S::zero_spec(), S::one_spec().negate_spec()]);
        r
    }
}

impl<S: Scalar> Vector<4, S> {
    pub fn x(&self) -> (r: S)
        ensures
            r == self@[0],
    {
        self.0[0]
    }

    pub fn y(&self) -> (r: S)
        ensures
            r == self@[1],
    {
        self.0[1]
    }

    pub fn z(&self) -> (r: S)
        ensures
            r == self@[2],
    {
        self.0[2]
    }

    pub fn w(&self) -> (r: S)
        ensures
            r == self@[3],
    {
        self.0[3]
    }

    /// The unit vector along positive y.
    pub fn up() -> (r: Self)
        ensures
            r@ == seq![S::zero_spec(), S::one_spec(), S::zero_spec(), S::zero_spec()],
    {
        let (o, z) = (S::one(), S::zero());
        let r = Vector([z, o, z, z]);
        assert(r@ =~= seq![S::zero_spec(), S::one_spec(), S::zero_spec(), S::zero_spec()]);
        r
    }

    /// The unit vector along negative y.
    pub fn down() -> (r: Self)
        ensures
            r@ == seq![S::zero_spec(), S::one_spec().negate_spec(), S::zero_spec(), S::zero_spec()],
    {
        let (o, z) = (S::one(), S::zero());
        let r = Vector([z, o.negate(), z, z]);
        assert(r@ =~= seq![S::zero_spec(), S::one_spec().negate_spec(), S::zero_spec(), S::zero_spec()]);
        r
    }

    /// The unit vector along positive x.
    pub fn right() -> (r: Self)
        ensures
            r@ == seq![S::one_spec(), S::zero_spec(), S::zero_spec(), S::zero_spec()],
    {
        let (o, z) = (S::one(), S::zero());
        let r = Vector([o, z, z, z]);
        assert(r@ =~= seq![S::one_spec(), S::zero_spec(), S::zero_spec(), S::zero_spec()]);
        r
    }

    /// The unit vector along negative x.
    pub fn left() -> (r: Self)
        ensures
            r@ == seq![S::one_spec().negate_spec(), S::zero_spec(), S::zero_spec(), S::zero_spec()],
    {
        let (o, z) = (S::one(), S::zero());
        let r = Vector([o.negate(), z, z, z]);
        assert(r@ =~= seq![S::one_spec().negate_spec(), S::zero_spec(), S::zero_spec(), S::zero_spec()]);
        r
    }

    /// The unit vector along positive z.
    pub fn forward() -> (r: Self)
        ensures
            r@ == seq![S::zero_spec(), S::zero_spec(), S::one_spec(), S::zero_spec()],
    {
        let (o, z) = (S::one(), S::zero());
        let r = Vector([z, z, o, z]);
        assert(r@ =~= seq![S::zero_spec(), S::zero_spec(), S::one_spec(), S::zero_spec()]);
        r
    }

    /// The unit vector along negative z.
    pub fn backward() -> (r: Self)
        ensures
            r@ == seq![S::zero_spec(), S::zero_spec(), S::one_spec().negate_spec(), S::zero_spec()],
    {
        let (o, z) = (S::one(), S::zero());
        let r = Vector([z, z, o.negate(), z]);
        assert(r@ =~= seq![S::zero_spec(), S::zero_spec(), S::one_spec().negate_spec(), S::zero_spec()]);
        r
    }
}

impl<const L: usize, S: Scalar> vstd::std_specs::ops::NegSpecImpl for Vector<L, S> {
    /// The result is given by the `ensures` of `neg` itself.
    open spec fn obeys_neg_spec() -> bool {
        false
    }

    open spec fn neg_req(self) -> bool {
        true
    }

    open spec fn neg_spec(self) -> Self {
        arbitrary()
    }
}

impl<const L: usize, S: Scalar> core::ops::Neg for Vector<L, S> {
    type Output = Self;

    fn neg(self) -> (r: Self)
        ensures
            r@ == negated_spec(self@),
    {
        let mut o = self.0;
        let mut i: usize = 0;
        while i < L
            invariant
                i <= L,
                forall|k: int| 0 <= k < i ==> #[trigger] o@[k] == self@[k].negate_spec(),
                forall|k: int| i <= k < L ==> #[trigger] o@[k] == self@[k],
            decreases L - i,
        {
            o[i] = o[i].negate();
            i += 1;
        }
        let r = Vector(o);
        assert(r@ =~= negated_spec(self@));
        r
    }
}

impl<const L: usize, S: Scalar> vstd::std_specs::ops::SubSpecImpl for Vector<L, S> {
    /// The result is given by the `ensures` of `sub` itself.
    open spec fn obeys_sub_spec() -> bool {
        false
    }

    open spec fn sub_req(self, rhs: Self) -> bool {
        true
    }

    open spec fn sub_spec(self, rhs: Self) -> Self {
        arbitrary()
    }
}

impl<const L: usize, S: Scalar> core::ops::Sub for Vector<L, S> {
    type Output = Self;

    fn sub(self, rhs: Self) -> (r: Self)
        ensures
            r@ == difference_spec(self@, rhs@),
    {
        let mut o = self.0;
        let mut i: usize = 0;
        while i < L
            invariant
                i <= L,
                forall|k: int| 0 <= k < i ==> #[trigger] o@[k] == self@[k].minus_spec(rhs@[k]),
                forall|k: int| i <= k < L ==> #[trigger] o@[k] == self@[k],
            decreases L - i,
        {
            o[i] = o[i].minus(rhs.0[i]);
            i += 1;
        }
        let r = Vector(o);
        assert(r@ =~= difference_spec(self@, rhs@));
        r
    }
}

impl<const L: usize, S: Real> vstd::std_specs::ops::DivSpecImpl<S> for Vector<L, S> {
    /// The result is given by the `ensures` of `div` itself.
    open spec fn obeys_div_spec() -> bool {
        false
    }

    open spec fn div_req(self, rhs: S) -> bool {
        true
    }

    open spec fn div_spec(self, rhs: S) -> Self {
        arbitrary()
    }
}

impl<const L: usize, S: Real> core::ops::Div<S> for Vector<L, S> {
    type Output = Self;

    fn div(self, rhs: S) -> (r: Self)
        ensures
            r@ == divided_spec(self@, rhs),
    {
        let mut o = self.0;
        let mut i: usize = 0;
        while i < L
            invariant
                i <= L,
                forall|k: int| 0 <= k < i ==> #[trigger] o@[k] == self@[k].divide_spec(rhs),
                forall|k: int| i <= k < L ==> #[trigger] o@[k] == self@[k],
            decreases L - i,
        {
            o[i] = o[i].divide(rhs);
            i += 1;
        }
        let r = Vector(o);
        assert(r@ =~= divided_spec(self@, rhs));
        r
    }
}

} // verus!

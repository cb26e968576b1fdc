use vstd::prelude::*;

use crate::scalar::{Real, Scalar};

verus! {

/// A scalar magnitude tagged with the unit it is measured in.
#[derive(Clone, Copy, Debug)]
pub enum Angle<S> {
    Radians(S),
    Degrees(S),
}

impl<S> Angle<S> {
    /// The magnitude, whatever the unit.
    pub open spec fn magnitude_spec(self) -> S {
        match self {
            Angle::Radians(r) => r,
            Angle::Degrees(d) => d,
        }
    }
}

impl<S: Real> Angle<S> {
    /// This angle in radians: unchanged if it is already.
    pub open spec fn to_radians_spec(self) -> Angle<S> {
        match self {
            Angle::Radians(_) => self,
            Angle::Degrees(d) => Angle::Radians(d.rad_spec()),
        }
    }

    /// This angle in degrees: unchanged if it is already.
    pub open spec fn to_degrees_spec(self) -> Angle<S> {
        match self {
            Angle::Radians(r) => Angle::Degrees(r.deg_spec()),
            Angle::Degrees(_) => self,
        }
    }

    pub fn to_radians(self) -> (r: Self)
        ensures
            r == self.to_radians_spec(),
    {
        match self {
            Angle::Radians(_) => self,
            Angle::Degrees(d) => Angle::Radians(d.rad()),
        }
    }

    pub fn to_degrees(self) -> (r: Self)
        ensures
            r == self.to_degrees_spec(),
    {
        match self {
            Angle::Radians(r) => Angle::Degrees(r.deg()),
            Angle::Degrees(_) => self,
        }
    }
}

/// Converting to a unit twice gives what converting once gives.
pub proof fn lemma_unit_conversion_idempotent<S: Real>(a: Angle<S>)
    ensures
        a.to_radians_spec().to_radians_spec() == a.to_radians_spec(),
        a.to_degrees_spec().to_degrees_spec() == a.to_degrees_spec(),
{
}

impl<S: Copy> Angle<S> {
    pub fn rad(s: S) -> (r: Self)
        ensures
            r == Angle::Radians(s),
    {
        Angle::Radians(s)
    }

    pub fn deg(s: S) -> (r: Self)
        ensures
            r == Angle::Degrees(s),
    {
        Angle::Degrees(s)
    }

    pub fn is_radians(&self) -> (r: bool)
        ensures
            r == self is Radians,
    {
        match self {
            Angle::Radians(_) => true,
            Angle::Degrees(_) => false,
        }
    }

    pub fn is_degrees(&self) -> (r: bool)
        ensures
            r == self is Degrees,
    {
        match self {
            Angle::Radians(_) => false,
            Angle::Degrees(_) => true,
        }
    }

    /// The magnitude, with the unit discarded.
    pub fn inner(&self) -> (r: &S)
        ensures
            *r == self.magnitude_spec(),
    {
        match self {
            Angle::Radians(r) => r,
            Angle::Degrees(d) => d,
        }
    }

    /// The magnitude, with the unit discarded.
    pub fn to_inner(self) -> (r: S)
        ensures
            r == self.magnitude_spec(),
    {
        match self {
            Angle::Radians(r) => r,
            Angle::Degrees(d) => d,
        }
    }

    /// The suffix that follows the magnitude in text: none for radians, a
    /// degree sign for degrees.
    pub fn units(&self) -> (r: &'static str)
        ensures
            r@ == (if self is Radians {
                ""@
            } else {
                "°"@
            }),
    {
        match self {
            Angle::Radians(_) => "",
            Angle::Degrees(_) => "°",
        }
    }
}

impl<S: Scalar> Default for Angle<S> {
    fn default() -> (r: Self)
        ensures
            r == Angle::Radians(S::zero_spec()),
    {
        Angle::Radians(S::zero())
    }
}

/// A bare scalar is taken in this angle's unit, which the result keeps.
impl<S: Scalar> vstd::std_specs::ops::AddSpecImpl<S> for Angle<S> {
    open spec fn obeys_add_spec() -> bool {
        true
    }

    open spec fn add_req(self, rhs: S) -> bool {
        true
    }

    open spec fn add_spec(self, rhs: S) -> Angle<S> {
        match self {
            Angle::Radians(r) => Angle::Radians(r.plus_spec(rhs)),
            Angle::Degrees(d) => Angle::Degrees(d.plus_spec(rhs)),
        }
    }
}

impl<S: Scalar> core::ops::Add<S> for Angle<S> {
    type Output = Angle<S>;

    fn add(self, rhs: S) -> (r: Angle<S>) {
        match self {
            Angle::Radians(r) => Angle::Radians(r.plus(rhs)),
            Angle::Degrees(d) => Angle::Degrees(d.plus(rhs)),
        }
    }
}

/// A bare scalar is taken in this angle's unit, which the result keeps.
impl<S: Scalar> vstd::std_specs::ops::SubSpecImpl<S> for Angle<S> {
    open spec fn obeys_sub_spec() -> bool {
        true
    }

    open spec fn sub_req(self, rhs: S) -> bool {
        true
    }

    open spec fn sub_spec(self, rhs: S) -> Angle<S> {
        match self {
            Angle::Radians(r) => Angle::Radians(r.minus_spec(rhs)),
            Angle::Degrees(d) => Angle::Degrees(d.minus_spec(rhs)),
        }
    }
}

impl<S: Scalar> core::ops::Sub<S> for Angle<S> {
    type Output = Angle<S>;

    fn sub(self, rhs: S) -> (r: Angle<S>) {
        match self {
            Angle::Radians(r) => Angle::Radians(r.minus(rhs)),
            Angle::Degrees(d) => Angle::Degrees(d.minus(rhs)),
        }
    }
}

/// The right-hand angle is converted to this angle's unit, which the result keeps.
impl<S: Real> vstd::std_specs::ops::AddSpecImpl<Angle<S>> for Angle<S> {
    open spec fn obeys_add_spec() -> bool {
        true
    }

    open spec fn add_req(self, rhs: Angle<S>) -> bool {
        true
    }

    open spec fn add_spec(self, rhs: Angle<S>) -> Angle<S> {
        match self {
            Angle::Radians(r) => Angle::Radians(r.plus_spec(rhs.to_radians_spec().magnitude_spec())),
            Angle::Degrees(d) => Angle::Degrees(d.plus_spec(rhs.to_degrees_spec().magnitude_spec())),
        }
    }
}

impl<S: Real> core::ops::Add<Angle<S>> for Angle<S> {
    type Output = Angle<S>;

    fn add(self, rhs: Angle<S>) -> (r: Angle<S>) {
        match self {
            Angle::Radians(r) => Angle::Radians(r.plus(rhs.to_radians().to_inner())),
            Angle::Degrees(d) => Angle::Degrees(d.plus(rhs.to_degrees().to_inner())),
        }
    }
}

/// The right-hand angle is converted to this angle's unit, which the result keeps.
impl<S: Real> vstd::std_specs::ops::SubSpecImpl<Angle<S>> for Angle<S> {
    open spec fn obeys_sub_spec() -> bool {
        true
    }

    open spec fn sub_req(self, rhs: Angle<S>) -> bool {
        true
    }

    open spec fn sub_spec(self, rhs: Angle<S>) -> Angle<S> {
        match self {
            Angle::Radians(r) => Angle::Radians(r.minus_spec(rhs.to_radians_spec().magnitude_spec())),
            Angle::Degrees(d) => Angle::Degrees(d.minus_spec(rhs.to_degrees_spec().magnitude_spec())),
        }
    }
}

impl<S: Real> core::ops::Sub<Angle<S>> for Angle<S> {
    type Output = Angle<S>;

    fn sub(self, rhs: Angle<S>) -> (r: Angle<S>) {
        match self {
            Angle::Radians(r) => Angle::Radians(r.minus(rhs.to_radians().to_inner())),
            Angle::Degrees(d) => Angle::Degrees(d.minus(rhs.to_degrees().to_inner())),
        }
    }
}

} // verus!

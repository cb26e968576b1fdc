use vstd::prelude::*;

use crate::angle::Angle;
use crate::scalar::Real;

verus! {

/// A rotation as roll, pitch and yaw, each in its own unit.
#[derive(Clone, Copy, Debug)]
pub struct EulerAngles<S> {
    pub roll: Angle<S>,
    pub pitch: Angle<S>,
    pub yaw: Angle<S>,
}

impl<S: Real> EulerAngles<S> {
    /// All three angles in radians.
    pub fn to_radians(self) -> (r: Self)
        ensures
            r.roll == self.roll.to_radians_spec(),
            r.pitch == self.pitch.to_radians_spec(),
            r.yaw == self.yaw.to_radians_spec(),
    {
        EulerAngles {
            roll: self.roll.to_radians(),
            pitch: self.pitch.to_radians(),
            yaw: self.yaw.to_radians(),
        }
    }

    /// All three angles in degrees.
    pub fn to_degrees(self) -> (r: Self)
        ensures
            r.roll == self.roll.to_degrees_spec(),
            r.pitch == self.pitch.to_degrees_spec(),
            r.yaw == self.yaw.to_degrees_spec(),
    {
        EulerAngles {
            roll: self.roll.to_degrees(),
            pitch: self.pitch.to_degrees(),
            yaw: self.yaw.to_degrees(),
        }
    }
}

} // verus!

use vstd::prelude::*;

use crate::angle::Angle;

verus! {

/// Three angles about the coordinate axes.
#[derive(Clone, Copy, Debug)]
pub struct AxisAngle<S> {
    pub alpha: Angle<S>,
    pub beta: Angle<S>,
    pub gamma: Angle<S>,
}

} // verus!

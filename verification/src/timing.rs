//! The time step by which the animation moves on each frame.

use vstd::prelude::*;

verus! {

/// The nominal frame rate. The animation is stepped as if exactly this many
/// frames were shown per second, whatever the wall clock says.
pub const FRAMES_PER_SECOND: u32 = 60;

/// A span of time in seconds, as the fraction `numerator / denominator`.
#[derive(Clone, Copy, Debug, PartialEq, Eq, Structural)]
pub struct TimeStep {
    pub numerator: u32,
    pub denominator: u32,
}

impl TimeStep {
    /// A time step is a proper fraction only if its denominator is not zero.
    pub open spec fn well_formed(self) -> bool {
        self.denominator > 0
    }

    /// One sixtieth of a second.
    pub open spec fn one_frame() -> TimeStep {
        TimeStep { numerator: 1, denominator: FRAMES_PER_SECOND }
    }

    /// The step for one frame at the nominal rate.
    pub fn frame() -> (step: TimeStep)
        ensures
            step == TimeStep::one_frame(),
            step.well_formed(),
            step.numerator == 1,
            step.denominator == 60,
    {
        TimeStep { numerator: 1, denominator: FRAMES_PER_SECOND }
    }
}

} // verus!

//! Wave shapes that a demonstration channel can follow.

use vstd::prelude::*;

verus! {

/// The shape of a demonstration signal.
#[derive(Clone, Copy, Debug, PartialEq, Eq, Structural)]
pub enum GraphType {
    /// A ramp that climbs to a peak and falls back to zero.
    Triangle,
    /// A sinusoid around zero.
    SinWave,
}

} // verus!

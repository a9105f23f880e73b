use vstd::prelude::*;

verus! {

/// Curve of a parameter ramp: straight in the value, or straight in its
/// logarithm (for strictly positive endpoints only).
#[derive(Clone, Copy, Debug, PartialEq, Eq, Structural)]
pub enum RampType {
    Linear,
    Exponential,
}

} // verus!

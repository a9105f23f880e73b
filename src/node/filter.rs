use vstd::prelude::*;

verus! {

/// Filter topologies; a 2-pole lowpass is the one there is.
#[derive(Clone, Copy, Debug, PartialEq, Eq, Structural)]
pub enum FilterType {
    Lowpass,
}

} // verus!

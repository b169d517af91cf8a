use vstd::prelude::*;

verus! {

/// Aligns an agent's heading with the mean heading of its neighbours.
#[derive(Clone, Copy, Debug, Default, PartialEq, Eq, Structural)]
pub struct AlignHeading;

impl AlignHeading {
    /// Creates a neighbour heading-alignment behaviour.
    pub fn new() -> (res: Self)
        ensures
            res == AlignHeading,
    {
        AlignHeading
    }
}

} // verus!

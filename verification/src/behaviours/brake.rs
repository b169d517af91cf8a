use vstd::prelude::*;

verus! {

/// A steering component that decelerates an agent by applying interest in
/// the direction opposite to its current velocity, down to a standstill.
#[derive(Clone, Copy, Debug, PartialEq, Eq, Structural)]
pub struct Brake;

} // verus!

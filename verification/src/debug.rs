//! Visual debugging switches.

use vstd::prelude::*;

verus! {

/// Marker attached to an agent to enable visual steering debug. Remove it
/// to disable gizmo rendering for that agent.
#[derive(Clone, Copy, Debug, Default, PartialEq, Eq, Structural)]
pub struct EnableSteeringDebug;

} // verus!

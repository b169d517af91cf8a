//! The plugin and the stages it schedules its systems in.

use vstd::prelude::*;

verus! {

/// The steering plugin: registers the cluster bookkeeping, the spatial
/// queries, the behaviours and the motion models.
#[derive(Clone, Copy, Debug, Default, PartialEq, Eq, Structural)]
pub struct SteeringPlugin;

/// Pre-update stage: spatial partitioning and cluster generation.
#[derive(Clone, Copy, Debug, Hash, PartialEq, Eq, Structural)]
pub struct SteeringSpatialSet;

/// Update stage: behaviour calculation and steering evaluation.
#[derive(Clone, Copy, Debug, Hash, PartialEq, Eq, Structural)]
pub struct SteeringBehaviorSet;

/// Post-update stage: force resolution, accumulation and integration.
#[derive(Clone, Copy, Debug, Hash, PartialEq, Eq, Structural)]
pub struct SteeringPhysicsSet;

} // verus!

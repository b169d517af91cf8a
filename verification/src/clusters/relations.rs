use vstd::prelude::*;
use super::ClusterId;

verus! {

/// Connects individual member entities to their parent [`Cluster`] root entity.
#[derive(Clone, Copy, PartialEq, Eq, Structural, Debug)]
pub struct ClusterMember;

/// Marker for the cluster's root entity.
///
/// The root entity acts as an organizational hub and holds aggregated cluster data
/// useful for collective behaviours (e.g. `ClusterCentre`, `ClusterAverageVelocity`).
#[derive(Clone, Copy, PartialEq, Eq, Structural, Debug)]
pub struct Cluster(pub ClusterId);

} // verus!

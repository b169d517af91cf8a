use vstd::prelude::*;
use bevy::math::Vec3;

verus! {

/// The spatial centre of the cluster, computed across all members.
#[derive(Clone, Copy, Debug)]
pub struct ClusterCentre(pub Vec3);

/// The mean velocity vector of all members belonging to the cluster.
#[derive(Clone, Copy, Debug)]
pub struct ClusterAverageVelocity(pub Vec3);

} // verus!

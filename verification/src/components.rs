//! Markers and group summaries attached to agents and cluster roots.

use vstd::prelude::*;
use bevy::math::Vec3;

verus! {

/// A marker designating an entity as an active, movable steering agent.
#[derive(Clone, Copy, Debug, Default, PartialEq, Eq, Structural)]
pub struct SteeringAgent;

/// The centre of the group (cluster or neighbourhood).
#[derive(Clone, Copy, Debug)]
pub struct SteeringGroupCentre(pub Vec3);

/// The mean velocity vector of all members belonging to the group (cluster or neighbourhood).
#[derive(Clone, Copy, Debug)]
pub struct SteeringGroupMeanVelocity(pub Vec3);

/// The mean heading vector of all members belonging to the group (cluster or neighbourhood).
#[derive(Clone, Copy, Debug)]
pub struct SteeringGroupMeanHeading(pub Vec3);

} // verus!

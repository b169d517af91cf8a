//! Context steering for agents: the bookkeeping that decides which clusters,
//! neighbours and obstacles an agent is linked to, the shared sample
//! direction sets, and the plain components that configure behaviours.

pub mod behaviours;
pub mod clusters;
pub mod components;
pub mod context;
pub mod debug;
pub mod motion;
pub mod neighbours;
pub mod obstacles;
pub mod outside;
pub mod plugin;
pub mod relationships;

pub use behaviours::{AlignHeading, Brake, Throttle, ThrottleTo};
pub use clusters::{
    Cluster, ClusterAverageVelocity, ClusterCentre, ClusterId, ClusterMap, ClusterMember,
};
pub use components::{
    SteeringAgent, SteeringGroupCentre, SteeringGroupMeanHeading, SteeringGroupMeanVelocity,
};
pub use context::{DirectionSetKind, DirectionsRegistry, SteeringDirectionsCache};
pub use debug::EnableSteeringDebug;
pub use motion::MotionKinematic;
pub use neighbours::{accepted_hits, accepts_neighbour, NeighbourhoodExtents, NeighbourhoodFilter};
pub use obstacles::{Obstacle, ObstacleDetection, ObstacleFilter};
pub use plugin::{SteeringBehaviorSet, SteeringPhysicsSet, SteeringPlugin, SteeringSpatialSet};
pub use relationships::stale_targets;

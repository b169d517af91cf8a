//! Clusters: logical groups of agents identified by a [`ClusterId`], each
//! represented by one root entity that the [`ClusterMap`] finds again.

mod id;
mod map;
mod properties;
mod relations;

pub use id::ClusterId;
pub use map::{
    exit_roots, lemma_discarded_cluster_is_gone, lemma_exit_resolves_every_known_cluster,
    lemma_exit_roots_are_named, lemma_recorded_root_resolves, lemma_recording_keeps_others, lookup,
    unknown_clusters, ClusterMap,
};
pub use properties::{ClusterAverageVelocity, ClusterCentre};
pub use relations::{Cluster, ClusterMember};

use bevy_context_steering::{Cluster, ClusterId, ClusterMap, ClusterMember};

#[test]
fn cluster_id_from_integer_round_trips() {
    let id = ClusterId::from(42u64);
    assert_eq!(id, ClusterId::from(42u64));
    assert_eq!(u64::from(id), 42);
}

#[test]
fn cluster_id_new_is_deterministic_and_hashes() {
    let a = ClusterId::new("squad-a");
    let b = ClusterId::new("squad-a");
    let c = ClusterId::new("squad-b");
    assert_eq!(a, b);
    assert_ne!(a, c);
    // The identifier is a digest, not the value handed in.
    assert_ne!(ClusterId::new(7u64), ClusterId::from(7u64));
}

#[test]
fn empty_map_knows_no_cluster() {
    let map = ClusterMap::new();
    assert_eq!(map.get(&ClusterId::from(1u64)), None);
    let map = ClusterMap::default();
    assert_eq!(map.get(&ClusterId::from(0u64)), None);
}

#[test]
fn contains_and_len_follow_the_map() {
    let mut map = ClusterMap::new();
    assert_eq!(map.len(), 0);
    assert!(!map.contains(&ClusterId::from(1u64)));
    map.on_insert_cluster(ClusterId::from(1u64), 10);
    map.on_insert_cluster(ClusterId::from(2u64), 20);
    map.on_insert_cluster(ClusterId::from(1u64), 11);
    assert_eq!(map.len(), 2);
    assert!(map.contains(&ClusterId::from(1u64)));
    map.on_discard_cluster(ClusterId::from(1u64));
    assert_eq!(map.len(), 1);
    assert!(!map.contains(&ClusterId::from(1u64)));
}

#[test]
fn recorded_root_resolves() {
    let mut map = ClusterMap::new();
    assert_eq!(map.on_insert_cluster(ClusterId::from(3u64), 300), None);
    assert_eq!(map.get(&ClusterId::from(3u64)), Some(300));
    assert_eq!(map.get(&ClusterId::from(4u64)), None);
}

#[test]
fn id_collision_reports_previous_root_and_replaces_it() {
    let mut map = ClusterMap::new();
    map.on_insert_cluster(ClusterId::from(3u64), 300);
    assert_eq!(map.on_insert_cluster(ClusterId::from(3u64), 301), Some(300));
    assert_eq!(map.get(&ClusterId::from(3u64)), Some(301));
}

#[test]
fn recording_keeps_other_clusters() {
    let mut map = ClusterMap::new();
    map.on_insert_cluster(ClusterId::from(1u64), 10);
    map.on_insert_cluster(ClusterId::from(2u64), 20);
    assert_eq!(map.get(&ClusterId::from(1u64)), Some(10));
    assert_eq!(map.get(&ClusterId::from(2u64)), Some(20));
}

#[test]
fn discarded_cluster_is_gone_others_stay() {
    let mut map = ClusterMap::new();
    map.on_insert_cluster(ClusterId::from(1u64), 10);
    map.on_insert_cluster(ClusterId::from(2u64), 20);
    map.on_discard_cluster(ClusterId::from(1u64));
    assert_eq!(map.get(&ClusterId::from(1u64)), None);
    assert_eq!(map.get(&ClusterId::from(2u64)), Some(20));
    // Discarding an unknown cluster changes nothing.
    map.on_discard_cluster(ClusterId::from(9u64));
    assert_eq!(map.get(&ClusterId::from(2u64)), Some(20));
}

#[test]
fn exit_targets_resolves_all_known_clusters_in_order() {
    let mut map = ClusterMap::new();
    map.on_insert_cluster(ClusterId::from(1u64), 10);
    map.on_insert_cluster(ClusterId::from(2u64), 20);
    let (targets, unknown) = map.exit_targets(&[ClusterId::from(2u64), ClusterId::from(1u64), ClusterId::from(2u64)]);
    assert_eq!(targets, vec![20, 10, 20]);
    assert!(unknown.is_empty());
}

#[test]
fn exit_targets_skips_unknown_clusters_and_reports_each() {
    let mut map = ClusterMap::new();
    map.on_insert_cluster(ClusterId::from(1u64), 10);
    map.on_insert_cluster(ClusterId::from(2u64), 20);
    let (targets, unknown) =
        map.exit_targets(&[ClusterId::from(1u64), ClusterId::from(5u64), ClusterId::from(2u64), ClusterId::from(6u64)]);
    assert_eq!(targets, vec![10, 20]);
    assert_eq!(unknown, vec![ClusterId::from(5u64), ClusterId::from(6u64)]);
}

#[test]
fn exit_targets_unknown_first_still_leaves_known() {
    let mut map = ClusterMap::new();
    map.on_insert_cluster(ClusterId::from(2u64), 20);
    let (targets, unknown) = map.exit_targets(&[ClusterId::from(9u64), ClusterId::from(2u64)]);
    assert_eq!(targets, vec![20]);
    assert_eq!(unknown, vec![ClusterId::from(9u64)]);
}

#[test]
fn exit_targets_of_nothing_is_nothing() {
    let map = ClusterMap::new();
    let (targets, unknown) = map.exit_targets(&[]);
    assert!(targets.is_empty());
    assert!(unknown.is_empty());
    let (targets, unknown) = map.exit_targets(&[ClusterId::from(8u64)]);
    assert!(targets.is_empty());
    assert_eq!(unknown, vec![ClusterId::from(8u64)]);
}

#[test]
fn cluster_marker_holds_its_id() {
    let cluster = Cluster(ClusterId::from(11u64));
    assert_eq!(cluster.0, ClusterId::from(11u64));
    assert_eq!(ClusterMember, ClusterMember);
}

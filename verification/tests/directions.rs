use bevy::math::Vec3;
use bevy_context_steering::{DirectionSetKind, DirectionsRegistry, SteeringDirectionsCache};
use std::sync::Arc;

fn small_set() -> SteeringDirectionsCache {
    SteeringDirectionsCache::from_parts(
        vec![Vec3::X, Vec3::Y, Vec3::Z],
        vec![vec![0, 1], vec![1], vec![2, 0, 1]],
    )
    .expect("neighbours fit")
}

/// A set of `n` directions, each slot its own only neighbour.
fn set_of(n: usize) -> SteeringDirectionsCache {
    SteeringDirectionsCache::from_parts(vec![Vec3::X; n], (0..n).map(|i| vec![i]).collect())
        .expect("neighbours fit")
}

#[test]
fn from_parts_accepts_fitting_neighbours() {
    let set = small_set();
    assert_eq!(set.directions(), &[Vec3::X, Vec3::Y, Vec3::Z]);
    assert_eq!(set.direction_neighbours().len(), 3);
    assert_eq!(set.direction_neighbours()[2], vec![2, 0, 1]);
}

#[test]
fn from_parts_rejects_out_of_range_neighbour() {
    let set = SteeringDirectionsCache::from_parts(vec![Vec3::X, Vec3::Y], vec![vec![0], vec![2]]);
    assert!(set.is_none());
}

#[test]
fn from_parts_rejects_wrong_list_count() {
    let set = SteeringDirectionsCache::from_parts(vec![Vec3::X, Vec3::Y], vec![vec![0]]);
    assert!(set.is_none());
    let empty = SteeringDirectionsCache::from_parts(vec![], vec![]);
    assert!(empty.is_some());
}

#[test]
fn kinds_have_distinct_keys() {
    assert_eq!(DirectionSetKind::Spherical { count: 4 }.key(), (0, 4));
    assert_eq!(DirectionSetKind::Plane { count: 4 }.key(), (1, 4));
}

#[test]
fn empty_registry_holds_nothing() {
    let registry = DirectionsRegistry::new();
    assert!(registry.get(DirectionSetKind::Spherical { count: 3 }).is_none());
}

#[test]
fn fibonacci_sphere_builds_once_and_shares() {
    let mut registry = DirectionsRegistry::new();
    let mut builds = 0;
    let first = SteeringDirectionsCache::fibonacci_sphere(&mut registry, 3, || {
        builds += 1;
        small_set()
    });
    let second = SteeringDirectionsCache::fibonacci_sphere(&mut registry, 3, || {
        builds += 1;
        small_set()
    });
    assert_eq!(builds, 1);
    assert!(Arc::ptr_eq(&first, &second));
    assert_eq!(first.directions().len(), 3);
    let stored = registry
        .get(DirectionSetKind::Spherical { count: 3 })
        .expect("registered");
    assert!(Arc::ptr_eq(&first, &stored));
    assert!(registry.get(DirectionSetKind::Plane { count: 3 }).is_none());
}

#[test]
fn distinct_counts_get_distinct_sets() {
    let mut registry = DirectionsRegistry::new();
    let a = SteeringDirectionsCache::fibonacci_sphere(&mut registry, 3, || set_of(3));
    let b = SteeringDirectionsCache::fibonacci_sphere(&mut registry, 4, || set_of(4));
    assert!(!Arc::ptr_eq(&a, &b));
    assert_eq!(a.directions().len(), 3);
    assert_eq!(b.directions().len(), 4);
    let a2 = SteeringDirectionsCache::fibonacci_sphere(&mut registry, 3, || set_of(3));
    assert!(Arc::ptr_eq(&a, &a2));
}

#[test]
fn default_shared_is_the_default_count_sphere() {
    let mut registry = DirectionsRegistry::new();
    let count = SteeringDirectionsCache::DEFAULT_DIRECTIONS_COUNT;
    let shared = SteeringDirectionsCache::default_shared(&mut registry, || set_of(count));
    let sphere = SteeringDirectionsCache::fibonacci_sphere(&mut registry, count, || {
        panic!("already built")
    });
    assert!(Arc::ptr_eq(&shared, &sphere));
    assert_eq!(count, 128);
    assert_eq!(shared.directions().len(), 128);
}

#[test]
fn neighbour_lists_hold_the_close_slots_in_order() {
    let lists = SteeringDirectionsCache::neighbour_lists(4, |i, j| i.abs_diff(j) <= 1);
    assert_eq!(lists, vec![vec![0, 1], vec![0, 1, 2], vec![1, 2, 3], vec![2, 3]]);
    let none = SteeringDirectionsCache::neighbour_lists(3, |_, _| false);
    assert_eq!(none, vec![Vec::<usize>::new(); 3]);
    assert!(SteeringDirectionsCache::neighbour_lists(0, |_, _| true).is_empty());
    let set = SteeringDirectionsCache::from_parts(vec![Vec3::X; 4], lists);
    assert!(set.is_some());
}

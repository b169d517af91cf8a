use bevy_context_steering::{accepted_hits, accepts_neighbour, stale_targets};
use std::collections::BTreeSet;

#[test]
fn stale_targets_are_the_previous_ones_not_hit() {
    assert_eq!(stale_targets(&[1, 2, 3, 4], &[4, 2, 9]), vec![1, 3]);
}

#[test]
fn stale_targets_keep_previous_order_and_repeats() {
    assert_eq!(stale_targets(&[5, 1, 5, 2], &[2]), vec![5, 1, 5]);
}

#[test]
fn nothing_is_stale_when_everything_is_hit_again() {
    assert!(stale_targets(&[1, 2], &[2, 1]).is_empty());
    assert!(stale_targets(&[], &[1, 2]).is_empty());
}

#[test]
fn everything_is_stale_when_nothing_is_hit() {
    assert_eq!(stale_targets(&[7, 8], &[]), vec![7, 8]);
}

fn apply(previous: &[u64], stale: &[u64], added: &[u64]) -> BTreeSet<u64> {
    let mut set: BTreeSet<u64> = previous.iter().copied().collect();
    for t in stale {
        set.remove(t);
    }
    set.extend(added.iter().copied());
    set
}

#[test]
fn obstacle_update_tracks_exactly_the_hits() {
    let previous = [1, 2, 3];
    let hits = [3, 4];
    let stale = stale_targets(&previous, &hits);
    assert_eq!(apply(&previous, &stale, &hits), BTreeSet::from([3, 4]));
}

#[test]
fn neighbour_update_stays_within_hits() {
    let previous = [1, 2, 3];
    let hits = [2, 3, 4, 5];
    let accepted = [4];
    let stale = stale_targets(&previous, &hits);
    let after = apply(&previous, &stale, &accepted);
    assert_eq!(after, BTreeSet::from([2, 3, 4]));
    assert!(after.iter().all(|t| hits.contains(t)));
}

#[test]
fn stale_link_dropped_when_obstacle_leaves_hits() {
    let obstacle = 42u64;
    // First frames: the obstacle is hit and linked; nothing is stale.
    assert!(stale_targets(&[], &[obstacle]).is_empty());
    assert_eq!(apply(&[], &[], &[obstacle]), BTreeSet::from([obstacle]));
    // It moves out of range: it is no longer hit, so it is unlinked.
    let stale = stale_targets(&[obstacle], &[]);
    assert_eq!(stale, vec![obstacle]);
    assert!(apply(&[obstacle], &stale, &[]).is_empty());
}

#[test]
fn neighbour_accepted_only_when_other_and_on_shared_layer() {
    assert!(accepts_neighbour(1, 0b01, 2, 0b11));
    // The agent itself is never its own neighbour.
    assert!(!accepts_neighbour(1, 0b01, 1, 0b01));
    // No layer in common.
    assert!(!accepts_neighbour(1, 0b01, 2, 0b10));
    assert!(!accepts_neighbour(1, 0, 2, u32::MAX));
}

#[test]
fn accepted_hits_keep_other_entities_on_shared_layers_in_order() {
    let hits = [(1, 0b01), (5, 0b10), (3, 0b11), (7, 0b01)];
    assert_eq!(accepted_hits(1, 0b01, &hits), vec![3, 7]);
    assert!(accepted_hits(1, 0b100, &hits).is_empty());
    assert!(accepted_hits(1, 0b01, &[]).is_empty());
}

#[test]
fn neighbour_leaving_the_filter_is_unlinked_while_in_extents() {
    let agent = 1;
    let neighbour = 2;
    // Linked while it shares the layer.
    let accepted = accepted_hits(agent, 0b01, &[(agent, 0b01), (neighbour, 0b01)]);
    assert_eq!(accepted, vec![neighbour]);
    // It switches to another layer but stays inside the extents.
    let accepted = accepted_hits(agent, 0b01, &[(agent, 0b01), (neighbour, 0b10)]);
    let stale = stale_targets(&[neighbour], &accepted);
    assert_eq!(stale, vec![neighbour]);
    assert!(apply(&[neighbour], &stale, &accepted).is_empty());
}

//! Keeping an agent's outgoing relationships (neighbours, obstacles) in step
//! with what a spatial query found this frame. Entities are held by their
//! bits (`Entity::to_bits`).

use vstd::prelude::*;
use crate::neighbours::{lemma_accepted_hits_pass, spec_accepted_hits, spec_accepts};

verus! {

/// The targets of `previous` that the query no longer found: they are the
/// relationships to drop.
pub open spec fn spec_stale_targets(previous: Seq<u64>, hits: Seq<u64>) -> Seq<u64> {
    previous.filter(|t: u64| !hits.contains(t))
}

/// The targets an entity is linked to after the `stale` ones are unlinked
/// from `previous` and the `added` ones are linked.
pub open spec fn targets_after(previous: Set<u64>, stale: Seq<u64>, added: Seq<u64>) -> Set<u64> {
    previous.difference(stale.to_set()).union(added.to_set())
}

/// Whether `target` occurs in `hits`.
fn contains_target(hits: &[u64], target: u64) -> (res: bool)
    ensures
        res == hits@.contains(target),
{
    let mut i: usize = 0;
    while i < hits.len()
        invariant
            i <= hits@.len(),
            forall|j: int| 0 <= j < i ==> hits@[j] != target,
        decreases hits@.len() - i,
    {
        if hits[i] == target {
            return true;
        }
        i = i + 1;
    }
    false
}

/// The current targets, in their order, that are not among this frame's
/// `hits`: the relationships to remove before the new ones are added.
pub fn stale_targets(previous: &[u64], hits: &[u64]) -> (res: Vec<u64>)
    ensures
        res@ == spec_stale_targets(previous@, hits@),
{
    let mut res: Vec<u64> = Vec::new();
    let mut i: usize = 0;
    while i < previous.len()
        invariant
            i <= previous@.len(),
            res@ == spec_stale_targets(previous@.take(i as int), hits@),
        decreases previous@.len() - i,
    {
        let target = previous[i];
        proof {
            assert(previous@.take(i + 1).drop_last() =~= previous@.take(i as int));
            reveal_with_fuel(Seq::filter, 1);
        }
        if !contains_target(hits, target) {
            res.push(target);
        }
        i = i + 1;
    }
    assert(previous@.take(previous@.len() as int) =~= previous@);
    res
}

/// Dropping the stale targets keeps exactly the current targets that are
/// still hits.
pub proof fn lemma_dropping_stale_keeps_hits(previous: Seq<u64>, hits: Seq<u64>)
    ensures
        previous.to_set().difference(spec_stale_targets(previous, hits).to_set()) =~= previous.to_set().intersect(
            hits.to_set(),
        ),
{
    let stale = spec_stale_targets(previous, hits);
    let pred = |t: u64| !hits.contains(t);
    assert forall|t: u64| #[trigger] previous.to_set().contains(t) implies (stale.to_set().contains(t)
        <==> !hits.to_set().contains(t)) by {
        let k = choose|k: int| 0 <= k < previous.len() && previous[k] == t;
        if !hits.contains(t) {
            previous.lemma_filter_contains(pred, k);
            assert(stale.contains(t));
        } else {
            if stale.contains(t) {
                let m = choose|m: int| 0 <= m < stale.len() && stale[m] == t;
                previous.lemma_filter_pred(pred, m);
            }
        }
    }
}

/// An obstacle update: after the stale targets are unlinked and every hit is
/// linked, the agent is linked to exactly the entities the query found.
pub proof fn lemma_obstacle_update_tracks_hits(previous: Seq<u64>, hits: Seq<u64>)
    ensures
        targets_after(previous.to_set(), spec_stale_targets(previous, hits), hits) =~= hits.to_set(),
{
    lemma_dropping_stale_keeps_hits(previous, hits);
}

/// A neighbour update, which drops the earlier targets that are not accepted
/// hits and links `added` accepted hits: afterwards every linked entity is a
/// hit other than the agent whose memberships share a layer with the agent's
/// filter; every added hit is linked, and every earlier target that is still
/// an accepted hit stays linked.
pub proof fn lemma_neighbour_update_links_only_accepted(
    agent: u64,
    filter: u32,
    previous: Seq<u64>,
    hits: Seq<(u64, u32)>,
    added: Seq<u64>,
)
    requires
        forall|t: u64| added.contains(t) ==> spec_accepted_hits(agent, filter, hits).contains(t),
    ensures
        forall|t: u64|
            #[trigger] targets_after(
                previous.to_set(),
                spec_stale_targets(previous, spec_accepted_hits(agent, filter, hits)),
                added,
            ).contains(t) ==> exists|k: int|
                0 <= k < hits.len() && hits[k].0 == t && t != agent && (filter & hits[k].1) != 0u32,
        added.to_set().subset_of(
            targets_after(
                previous.to_set(),
                spec_stale_targets(previous, spec_accepted_hits(agent, filter, hits)),
                added,
            ),
        ),
        previous.to_set().intersect(spec_accepted_hits(agent, filter, hits).to_set()).subset_of(
            targets_after(
                previous.to_set(),
                spec_stale_targets(previous, spec_accepted_hits(agent, filter, hits)),
                added,
            ),
        ),
{
    let accepted = spec_accepted_hits(agent, filter, hits);
    let after = targets_after(previous.to_set(), spec_stale_targets(previous, accepted), added);
    lemma_dropping_stale_keeps_hits(previous, accepted);
    assert forall|t: u64| #[trigger] after.contains(t) implies exists|k: int|
        0 <= k < hits.len() && hits[k].0 == t && t != agent && (filter & hits[k].1) != 0u32 by {
        assert(accepted.contains(t));
        let j = choose|j: int| 0 <= j < accepted.len() && accepted[j] == t;
        lemma_accepted_hits_pass(agent, filter, hits, j);
        let k = choose|k: int|
            0 <= k < hits.len() && hits[k].0 == accepted[j] && #[trigger] spec_accepts(agent, filter, hits[k]);
        assert(hits[k].0 == t && t != agent && (filter & hits[k].1) != 0u32);
    }
}

} // verus!

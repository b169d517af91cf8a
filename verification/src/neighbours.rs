//! Configuration of an agent's neighbourhood.

use vstd::prelude::*;
use avian3d::prelude::LayerMask;
use bevy::math::Vec3;

verus! {

/// The filter used to determine which entities can be neighbours for the given agent.
#[derive(Clone, Copy, Debug, PartialEq, Eq, PartialOrd, Ord)]
pub struct NeighbourhoodFilter(pub LayerMask);

/// Whether an entity that the neighbourhood query found around `agent` may
/// become one of its neighbours: it is another entity than the agent, and its
/// collision memberships share at least one layer with the agent's filter.
/// Entities are given by their bits, layers by their masks' bits.
pub fn accepts_neighbour(agent: u64, filter: u32, hit: u64, memberships: u32) -> (accepted: bool)
    ensures
        accepted == (hit != agent && (filter & memberships) != 0u32),
{
    hit != agent && (filter & memberships) != 0
}

/// Whether the hit `(entity bits, membership bits)` may become a neighbour of `agent`.
pub open spec fn spec_accepts(agent: u64, filter: u32, hit: (u64, u32)) -> bool {
    hit.0 != agent && (filter & hit.1) != 0u32
}

/// The entities of `hits` that may become neighbours of `agent`, in order.
pub open spec fn spec_accepted_hits(agent: u64, filter: u32, hits: Seq<(u64, u32)>) -> Seq<u64>
    decreases hits.len(),
{
    if hits.len() == 0 {
        Seq::empty()
    } else {
        let rest = spec_accepted_hits(agent, filter, hits.drop_last());
        if spec_accepts(agent, filter, hits.last()) {
            rest.push(hits.last().0)
        } else {
            rest
        }
    }
}

/// Whether `entity` is one of `hits` that passes the filter of `agent`: an
/// entity other than the agent whose memberships share a layer with `filter`.
pub open spec fn is_accepted_hit(agent: u64, filter: u32, hits: Seq<(u64, u32)>, entity: u64) -> bool {
    exists|k: int|
        0 <= k < hits.len() && #[trigger] hits[k].0 == entity && hits[k].0 != agent && (filter
            & hits[k].1) != 0u32
}

/// The entities that the neighbourhood query found around `agent` (each with
/// its collision membership bits) that may become its neighbours, in order.
pub fn accepted_hits(agent: u64, filter: u32, hits: &[(u64, u32)]) -> (res: Vec<u64>)
    ensures
        res@ == spec_accepted_hits(agent, filter, hits@),
        res@ == hits@.filter(|h: (u64, u32)| h.0 != agent && (filter & h.1) != 0u32).map_values(
            |h: (u64, u32)| h.0,
        ),
        forall|k: int|
            0 <= k < hits@.len() && hits@[k].0 != agent && (filter & hits@[k].1) != 0u32
                ==> res@.contains(#[trigger] hits@[k].0),
        forall|j: int|
            0 <= j < res@.len() ==> is_accepted_hit(agent, filter, hits@, #[trigger] res@[j]),
{
    let mut res: Vec<u64> = Vec::new();
    let mut i: usize = 0;
    while i < hits.len()
        invariant
            i <= hits@.len(),
            res@ == spec_accepted_hits(agent, filter, hits@.take(i as int)),
        decreases hits@.len() - i,
    {
        let (entity, memberships) = hits[i];
        proof {
            assert(hits@.take(i + 1).drop_last() =~= hits@.take(i as int));
            assert(hits@.take(i + 1).last() == hits@[i as int]);
        }
        if accepts_neighbour(agent, filter, entity, memberships) {
            res.push(entity);
        }
        i = i + 1;
    }
    assert(hits@.take(hits@.len() as int) =~= hits@);
    proof {
        lemma_accepted_hits_are_filtered_hits(agent, filter, hits@);
        assert forall|k: int|
            0 <= k < hits@.len() && hits@[k].0 != agent && (filter & hits@[k].1) != 0u32
                implies res@.contains(#[trigger] hits@[k].0) by {
            assert(spec_accepts(agent, filter, hits@[k]));
            lemma_accepted_hits_complete(agent, filter, hits@, k);
        }
        assert forall|j: int| 0 <= j < res@.len() implies is_accepted_hit(
            agent,
            filter,
            hits@,
            #[trigger] res@[j],
        ) by {
            lemma_accepted_hits_pass(agent, filter, hits@, j);
            let k = choose|k: int|
                0 <= k < hits@.len() && hits@[k].0 == res@[j]
                    && #[trigger] spec_accepts(agent, filter, hits@[k]);
            assert(hits@[k].0 == res@[j]);
        }
    }
    res
}

/// Every hit that passes the agent's filter is accepted: the query's hits
/// that are other entities sharing a layer with the filter all become
/// neighbours, wherever they stand among the hits.
pub proof fn lemma_accepted_hits_complete(agent: u64, filter: u32, hits: Seq<(u64, u32)>, k: int)
    requires
        0 <= k < hits.len(),
        hits[k].0 != agent,
        (filter & hits[k].1) != 0u32,
    ensures
        spec_accepted_hits(agent, filter, hits).contains(hits[k].0),
    decreases hits.len(),
{
    let rest = spec_accepted_hits(agent, filter, hits.drop_last());
    if k < hits.len() - 1 {
        assert(hits.drop_last()[k] == hits[k]);
        lemma_accepted_hits_complete(agent, filter, hits.drop_last(), k);
        let j = choose|j: int| 0 <= j < rest.len() && rest[j] == hits[k].0;
        if spec_accepts(agent, filter, hits.last()) {
            assert(rest.push(hits.last().0)[j] == hits[k].0);
        }
    } else {
        assert(hits.last() == hits[k]);
        let res = rest.push(hits.last().0);
        assert(res[rest.len() as int] == hits[k].0);
    }
}

/// The accepted entities are exactly the hits that pass the agent's filter,
/// taken in the order of the query, each by its entity.
pub proof fn lemma_accepted_hits_are_filtered_hits(agent: u64, filter: u32, hits: Seq<(u64, u32)>)
    ensures
        spec_accepted_hits(agent, filter, hits) == hits.filter(
            |h: (u64, u32)| h.0 != agent && (filter & h.1) != 0u32,
        ).map_values(|h: (u64, u32)| h.0),
    decreases hits.len(),
{
    let pred = |h: (u64, u32)| h.0 != agent && (filter & h.1) != 0u32;
    let f = |h: (u64, u32)| h.0;
    reveal_with_fuel(Seq::filter, 1);
    if hits.len() == 0 {
        assert(hits.filter(pred).map_values(f) =~= Seq::<u64>::empty());
    } else {
        lemma_accepted_hits_are_filtered_hits(agent, filter, hits.drop_last());
        let sub = hits.drop_last().filter(pred);
        if pred(hits.last()) {
            assert(sub.push(hits.last()).map_values(f) =~= sub.map_values(f).push(hits.last().0));
        }
    }
}

/// Every accepted entity is a hit that passes the agent's filter.
pub proof fn lemma_accepted_hits_pass(agent: u64, filter: u32, hits: Seq<(u64, u32)>, j: int)
    requires
        0 <= j < spec_accepted_hits(agent, filter, hits).len(),
    ensures
        exists|k: int|
            0 <= k < hits.len() && hits[k].0 == spec_accepted_hits(agent, filter, hits)[j]
                && #[trigger] spec_accepts(agent, filter, hits[k]),
    decreases hits.len(),
{
    let rest = spec_accepted_hits(agent, filter, hits.drop_last());
    if j < rest.len() {
        lemma_accepted_hits_pass(agent, filter, hits.drop_last(), j);
        let k = choose|k: int|
            0 <= k < hits.drop_last().len() && hits.drop_last()[k].0 == rest[j]
                && #[trigger] spec_accepts(agent, filter, hits.drop_last()[k]);
        assert(hits[k] == hits.drop_last()[k]);
    } else {
        assert(hits[hits.len() - 1] == hits.last());
    }
}

/// How far around the agent its neighbourhood extends, relative to the agent.
#[derive(Clone, Copy, Debug)]
pub struct NeighbourhoodExtents(pub Vec3);

impl From<LayerMask> for NeighbourhoodFilter {
    fn from(value: LayerMask) -> (res: Self) {
        NeighbourhoodFilter(value)
    }
}

impl vstd::std_specs::convert::FromSpecImpl<LayerMask> for NeighbourhoodFilter {
    open spec fn obeys_from_spec() -> bool {
        true
    }

    open spec fn from_spec(v: LayerMask) -> NeighbourhoodFilter {
        NeighbourhoodFilter(v)
    }
}

impl From<NeighbourhoodFilter> for LayerMask {
    fn from(value: NeighbourhoodFilter) -> (res: Self) {
        value.0
    }
}

impl vstd::std_specs::convert::FromSpecImpl<NeighbourhoodFilter> for LayerMask {
    open spec fn obeys_from_spec() -> bool {
        true
    }

    open spec fn from_spec(v: NeighbourhoodFilter) -> LayerMask {
        v.0
    }
}

impl From<Vec3> for NeighbourhoodExtents {
    fn from(value: Vec3) -> (res: Self) {
        NeighbourhoodExtents(value)
    }
}

impl vstd::std_specs::convert::FromSpecImpl<Vec3> for NeighbourhoodExtents {
    open spec fn obeys_from_spec() -> bool {
        true
    }

    open spec fn from_spec(v: Vec3) -> NeighbourhoodExtents {
        NeighbourhoodExtents(v)
    }
}

impl From<NeighbourhoodExtents> for Vec3 {
    fn from(value: NeighbourhoodExtents) -> (res: Self) {
        value.0
    }
}

impl vstd::std_specs::convert::FromSpecImpl<NeighbourhoodExtents> for Vec3 {
    open spec fn obeys_from_spec() -> bool {
        true
    }

    open spec fn from_spec(v: NeighbourhoodExtents) -> Vec3 {
        v.0
    }
}

} // verus!

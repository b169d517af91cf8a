use vstd::prelude::*;
use super::ClusterId;
use crate::outside::{
    id_table_entries, id_table_get, id_table_insert, id_table_len, id_table_new, id_table_remove, IdTable,
};

verus! {

/// The value stored under `key` in `m`, if any.
pub open spec fn lookup(m: Map<u64, u64>, key: u64) -> Option<u64> {
    if m.contains_key(key) {
        Some(m[key])
    } else {
        None
    }
}

/// Finds the root entity of each cluster by its [`ClusterId`].
///
/// Entities are held by their bits (`Entity::to_bits`); the map is kept in
/// step with the cluster roots that exist: a root is recorded when its
/// [`Cluster`](super::Cluster) marker is inserted and forgotten when it is
/// discarded.
pub struct ClusterMap {
    entries: IdTable,
}

impl View for ClusterMap {
    type V = Map<u64, u64>;

    /// Cluster id (its integer) to the bits of the cluster's root entity.
    closed spec fn view(&self) -> Map<u64, u64> {
        id_table_entries(self.entries)
    }
}

impl ClusterMap {
    /// A map that knows no cluster.
    pub fn new() -> (res: Self)
        ensures
            res@ == Map::<u64, u64>::empty(),
    {
        let res = ClusterMap { entries: id_table_new() };
        assert(res@ =~= Map::<u64, u64>::empty());
        res
    }

    /// The root entity of the cluster `id`, if the cluster exists.
    pub fn get(&self, id: &ClusterId) -> (res: Option<u64>)
        ensures
            res == lookup(self@, id.id()),
    {
        id_table_get(&self.entries, id.bits())
    }

    /// Whether the cluster `id` exists.
    pub fn contains(&self, id: &ClusterId) -> (res: bool)
        ensures
            res == self@.contains_key(id.id()),
    {
        id_table_get(&self.entries, id.bits()).is_some()
    }

    /// The number of clusters the map knows.
    pub fn len(&self) -> (res: usize)
        ensures
            res == self@.len(),
    {
        id_table_len(&self.entries)
    }

    /// Records that `entity` is the root of cluster `id`. Returns the root
    /// that was recorded for `id` before, if any: that is an id collision,
    /// and `entity` replaces the earlier root.
    pub fn on_insert_cluster(&mut self, id: ClusterId, entity: u64) -> (previous: Option<u64>)
        ensures
            final(self)@ == old(self)@.insert(id.id(), entity),
            previous == lookup(old(self)@, id.id()),
    {
        id_table_insert(&mut self.entries, id.bits(), entity)
    }

    /// Forgets cluster `id`, whichever entity was recorded as its root.
    pub fn on_discard_cluster(&mut self, id: ClusterId)
        ensures
            final(self)@ == old(self)@.remove(id.id()),
    {
        let _ = id_table_remove(&mut self.entries, id.bits());
    }

    /// Resolves the clusters that an entity leaves: each id of the batch is
    /// handled like a single exit. The first list holds the roots of the ids
    /// that name a cluster, in the order of the batch; the second holds the
    /// ids that name no cluster, in order, so that each can be reported.
    pub fn exit_targets(&self, ids: &[ClusterId]) -> (res: (Vec<u64>, Vec<ClusterId>))
        ensures
            res.0@ == exit_roots(self@, ids@),
            res.1@ == unknown_clusters(self@, ids@),
    {
        let mut targets: Vec<u64> = Vec::new();
        let mut unknown: Vec<ClusterId> = Vec::new();
        let mut i: usize = 0;
        while i < ids.len()
            invariant
                i <= ids@.len(),
                targets@ == exit_roots(self@, ids@.take(i as int)),
                unknown@ == unknown_clusters(self@, ids@.take(i as int)),
            decreases ids@.len() - i,
        {
            let id = ids[i];
            proof {
                assert(ids@.take(i + 1).drop_last() =~= ids@.take(i as int));
                assert(ids@.take(i + 1).last() == id);
                reveal_with_fuel(Seq::filter, 1);
            }
            match self.get(&id) {
                Some(entity) => targets.push(entity),
                None => unknown.push(id),
            }
            i = i + 1;
        }
        assert(ids@.take(ids@.len() as int) =~= ids@);
        (targets, unknown)
    }
}

/// The roots of the ids in `ids` that name a cluster of `m`, in order.
pub open spec fn exit_roots(m: Map<u64, u64>, ids: Seq<ClusterId>) -> Seq<u64>
    decreases ids.len(),
{
    if ids.len() == 0 {
        Seq::empty()
    } else {
        let rest = exit_roots(m, ids.drop_last());
        if m.contains_key(ids.last().id()) {
            rest.push(m[ids.last().id()])
        } else {
            rest
        }
    }
}

/// The ids in `ids` that name no cluster of `m`, in order.
pub open spec fn unknown_clusters(m: Map<u64, u64>, ids: Seq<ClusterId>) -> Seq<ClusterId> {
    ids.filter(|c: ClusterId| !m.contains_key(c.id()))
}

/// Leaving a batch resolves every cluster that one of its ids names: an
/// unknown id anywhere in the batch does not keep the entity in the others.
pub proof fn lemma_exit_resolves_every_known_cluster(m: Map<u64, u64>, ids: Seq<ClusterId>, k: int)
    requires
        0 <= k < ids.len(),
        m.contains_key(ids[k].id()),
    ensures
        exit_roots(m, ids).contains(m[ids[k].id()]),
    decreases ids.len(),
{
    if k == ids.len() - 1 {
        assert(exit_roots(m, ids).last() == m[ids[k].id()]);
    } else {
        lemma_exit_resolves_every_known_cluster(m, ids.drop_last(), k);
        let rest = exit_roots(m, ids.drop_last());
        let j = choose|j: int| 0 <= j < rest.len() && rest[j] == m[ids[k].id()];
        if m.contains_key(ids.last().id()) {
            assert(exit_roots(m, ids)[j] == rest[j]);
        }
    }
}

/// Every root that leaving resolves is the root of a cluster named in the batch.
pub proof fn lemma_exit_roots_are_named(m: Map<u64, u64>, ids: Seq<ClusterId>, j: int)
    requires
        0 <= j < exit_roots(m, ids).len(),
    ensures
        exists|k: int| 0 <= k < ids.len() && m.contains_key(ids[k].id()) && exit_roots(m, ids)[j] == m[ids[k].id()],
    decreases ids.len(),
{
    let rest = exit_roots(m, ids.drop_last());
    if j < rest.len() {
        lemma_exit_roots_are_named(m, ids.drop_last(), j);
        let k = choose|k: int| 0 <= k < ids.drop_last().len() && m.contains_key(ids.drop_last()[k].id()) && rest[j] == m[ids.drop_last()[k].id()];
        assert(ids[k] == ids.drop_last()[k]);
    } else {
        assert(ids[ids.len() - 1] == ids.last());
    }
}

impl Default for ClusterMap {
    fn default() -> (res: Self)
        ensures
            res@ == Map::<u64, u64>::empty(),
    {
        ClusterMap::new()
    }
}

/// Recording a root makes the cluster resolve to it, whatever was recorded before.
pub proof fn lemma_recorded_root_resolves(m: Map<u64, u64>, id: ClusterId, entity: u64)
    ensures
        lookup(m.insert(id.id(), entity), id.id()) == Some(entity),
{
}

/// Recording a root leaves every other cluster as it was.
pub proof fn lemma_recording_keeps_others(m: Map<u64, u64>, id: ClusterId, entity: u64, other: ClusterId)
    requires
        other != id,
    ensures
        lookup(m.insert(id.id(), entity), other.id()) == lookup(m, other.id()),
{
    ClusterId::lemma_id_round_trip(0, id, other);
}

/// A discarded cluster no longer resolves, and every other cluster is as it was.
pub proof fn lemma_discarded_cluster_is_gone(m: Map<u64, u64>, id: ClusterId, other: ClusterId)
    requires
        other != id,
    ensures
        lookup(m.remove(id.id()), id.id()) == None::<u64>,
        lookup(m.remove(id.id()), other.id()) == lookup(m, other.id()),
{
    ClusterId::lemma_id_round_trip(0, id, other);
}

} // verus!

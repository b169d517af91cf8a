use vstd::prelude::*;
use bevy::math::Vec3;
use std::sync::Arc;
use crate::outside::{arc_clone, slot_table_entries, slot_table_get, slot_table_insert, slot_table_new, SlotTable};

verus! {

/// A precomputed, immutable set of sample directions used by steering
/// contexts for their interest, danger and velocity maps.
///
/// Every slot has a list of neighbouring slots (used to interpolate between
/// slots), and every neighbour is itself a slot of the set.
pub struct SteeringDirectionsCache {
    /// Unit-length sample directions, indexed by slot.
    directions: Vec<Vec3>,
    /// For each slot, the indices of its neighbouring slots.
    direction_neighbours: Vec<Vec<usize>>,
}

/// The neighbour lists fit the directions: one list per slot, and every index
/// in a list names a slot.
pub open spec fn neighbours_fit(direction_count: nat, neighbours: Seq<Vec<usize>>) -> bool {
    &&& neighbours.len() == direction_count
    &&& forall|i: int, j: int|
        0 <= i < neighbours.len() && 0 <= j < neighbours[i]@.len() ==> (#[trigger] neighbours[i]@[j])
            < direction_count
}

impl SteeringDirectionsCache {
    #[verifier::type_invariant]
    closed spec fn well_formed(self) -> bool {
        neighbours_fit(self.directions@.len(), self.direction_neighbours@)
    }

    /// The sample directions, by slot.
    pub closed spec fn spec_directions(&self) -> Seq<Vec3> {
        self.directions@
    }

    /// The neighbour lists, by slot.
    pub closed spec fn spec_neighbours(&self) -> Seq<Vec<usize>> {
        self.direction_neighbours@
    }

    /// Assembles a direction set from its directions and neighbour lists.
    /// Returns `None` exactly when the lists do not fit the directions.
    pub fn from_parts(directions: Vec<Vec3>, direction_neighbours: Vec<Vec<usize>>) -> (res: Option<Self>)
        ensures
            res is Some <==> neighbours_fit(directions@.len(), direction_neighbours@),
            res matches Some(c) ==> c.spec_directions() == directions@ && c.spec_neighbours()
                == direction_neighbours@,
    {
        let n = directions.len();
        if direction_neighbours.len() != n {
            return None;
        }
        let mut i: usize = 0;
        while i < n
            invariant
                n == directions@.len(),
                direction_neighbours@.len() == n,
                i <= n,
                forall|a: int, b: int|
                    0 <= a < i && 0 <= b < direction_neighbours@[a]@.len() ==> (#[trigger] direction_neighbours@[a]@[b]) < n,
            decreases n - i,
        {
            let list = &direction_neighbours[i];
            let mut j: usize = 0;
            while j < list.len()
                invariant
                    n == directions@.len(),
                    direction_neighbours@.len() == n,
                    i < n,
                    *list == direction_neighbours@[i as int],
                    j <= list@.len(),
                    forall|a: int, b: int|
                        0 <= a < i && 0 <= b < direction_neighbours@[a]@.len() ==> (#[trigger] direction_neighbours@[a]@[b]) < n,
                    forall|b: int| 0 <= b < j ==> (#[trigger] list@[b]) < n,
                decreases list@.len() - j,
            {
                if list[j] >= n {
                    return None;
                }
                j = j + 1;
            }
            i = i + 1;
        }
        Some(SteeringDirectionsCache { directions, direction_neighbours })
    }

    /// The neighbour lists of `count` slots: for each slot `i`, the slots `j`
    /// for which `close(i, j)` holds, in increasing order. `close` is asked
    /// once for each pair of slots.
    pub fn neighbour_lists<F: Fn(usize, usize) -> bool>(count: usize, close: F) -> (res: Vec<Vec<usize>>)
        requires
            forall|i: usize, j: usize| i < count && j < count ==> close.requires((i, j)),
        ensures
            neighbours_fit(count as nat, res@),
            forall|i: int, a: int, b: int|
                0 <= i < count && 0 <= a < b < res@[i]@.len() ==> res@[i]@[a] < res@[i]@[b],
            forall|i: usize, j: usize|
                i < count && j < count ==> (#[trigger] res@[i as int]@.contains(j) ==> close.ensures((i, j), true))
                    && (!res@[i as int]@.contains(j) ==> close.ensures((i, j), false)),
    {
        let mut res: Vec<Vec<usize>> = Vec::new();
        let mut i: usize = 0;
        while i < count
            invariant
                i <= count,
                res@.len() == i,
                forall|c: usize, d: usize| c < count && d < count ==> close.requires((c, d)),
                forall|x: int, y: int|
                    0 <= x < i && 0 <= y < res@[x]@.len() ==> (#[trigger] res@[x]@[y]) < count,
                forall|x: int, a: int, b: int|
                    0 <= x < i && 0 <= a < b < res@[x]@.len() ==> res@[x]@[a] < res@[x]@[b],
                forall|x: usize, y: usize|
                    x < i && y < count ==> (#[trigger] res@[x as int]@.contains(y) ==> close.ensures((x, y), true))
                        && (!res@[x as int]@.contains(y) ==> close.ensures((x, y), false)),
            decreases count - i,
        {
            let mut list: Vec<usize> = Vec::new();
            let mut j: usize = 0;
            while j < count
                invariant
                    i < count,
                    j <= count,
                    forall|c: usize, d: usize| c < count && d < count ==> close.requires((c, d)),
                    forall|y: int| 0 <= y < list@.len() ==> (#[trigger] list@[y]) < j,
                    forall|a: int, b: int| 0 <= a < b < list@.len() ==> list@[a] < list@[b],
                    forall|y: usize|
                        y < j ==> (#[trigger] list@.contains(y) ==> close.ensures((i, y), true))
                            && (!list@.contains(y) ==> close.ensures((i, y), false)),
                decreases count - j,
            {
                let near = close(i, j);
                let ghost before = list@;
                if near {
                    list.push(j);
                }
                proof {
                    assert forall|y: usize|
                        y < j + 1 implies (#[trigger] list@.contains(y) ==> close.ensures((i, y), true))
                            && (!list@.contains(y) ==> close.ensures((i, y), false)) by {
                        if y < j {
                            if near {
                                assert(list@ == before.push(j));
                                if list@.contains(y) {
                                    let k = choose|k: int| 0 <= k < list@.len() && list@[k] == y;
                                    if k < before.len() {
                                        assert(before[k] == y);
                                        assert(before.contains(y));
                                    }
                                }
                                if before.contains(y) {
                                    let k = choose|k: int| 0 <= k < before.len() && before[k] == y;
                                    assert(list@[k] == y);
                                }
                            }
                        } else {
                            assert(y == j);
                            if near {
                                assert(list@[list@.len() - 1] == j);
                            } else {
                                if list@.contains(y) {
                                    let k = choose|k: int| 0 <= k < list@.len() && list@[k] == y;
                                    assert(list@[k] < j);
                                }
                            }
                        }
                    }
                }
                j = j + 1;
            }
            let ghost prev = res@;
            res.push(list);
            proof {
                assert forall|x: usize, y: usize|
                    x < i + 1 && y < count implies (#[trigger] res@[x as int]@.contains(y) ==> close.ensures((x, y), true))
                        && (!res@[x as int]@.contains(y) ==> close.ensures((x, y), false)) by {
                    if x < i {
                        assert(res@[x as int] == prev[x as int]);
                    } else {
                        assert(res@[x as int] == list);
                    }
                }
            }
            i = i + 1;
        }
        res
    }

    /// Returns the unit-length sample directions indexed by slot.
    pub fn directions(&self) -> (res: &[Vec3])
        ensures
            res@ == self.spec_directions(),
            neighbours_fit(res@.len(), self.spec_neighbours()),
    {
        proof {
            use_type_invariant(self);
        }
        self.directions.as_slice()
    }

    /// Returns the neighbouring slot indices of each slot, used for
    /// interpolating between slots. There is one list per slot, and every
    /// index in them is a slot.
    pub fn direction_neighbours(&self) -> (res: &[Vec<usize>])
        ensures
            res@ == self.spec_neighbours(),
            neighbours_fit(self.spec_directions().len(), res@),
    {
        proof {
            use_type_invariant(self);
        }
        self.direction_neighbours.as_slice()
    }
}

/// Identifies a particular shape and resolution of direction set. Two
/// requests for the same kind resolve to the same shared set.
#[derive(Clone, Copy, PartialEq, Eq, Structural, Debug, Hash)]
pub enum DirectionSetKind {
    /// Directions sampled over a sphere (a Fibonacci sphere).
    Spherical { count: usize },
    /// Directions sampled over a plane (evenly spaced around a circle).
    Plane { count: usize },
}

impl DirectionSetKind {
    /// The number of sample directions of the kind.
    pub open spec fn spec_count(self) -> usize {
        match self {
            DirectionSetKind::Spherical { count } => count,
            DirectionSetKind::Plane { count } => count,
        }
    }

    /// The integer key under which the kind is registered.
    pub open spec fn spec_key(self) -> (u8, usize) {
        match self {
            DirectionSetKind::Spherical { count } => (0u8, count),
            DirectionSetKind::Plane { count } => (1u8, count),
        }
    }

    /// The integer key under which the kind is registered.
    pub fn key(&self) -> (res: (u8, usize))
        ensures
            res == self.spec_key(),
    {
        match self {
            DirectionSetKind::Spherical { count } => (0u8, *count),
            DirectionSetKind::Plane { count } => (1u8, *count),
        }
    }

    /// Distinct kinds have distinct keys.
    pub proof fn lemma_key_injective(a: DirectionSetKind, b: DirectionSetKind)
        ensures
            a.spec_key() == b.spec_key() ==> a == b,
    {
    }
}

/// A cache of built direction sets, keyed by [`DirectionSetKind`]. Each set
/// is built once, on its first request, and shared afterwards.
pub struct DirectionsRegistry {
    slots: SlotTable,
    sets: Vec<Arc<SteeringDirectionsCache>>,
}

/// One request to a memoising registry: a kind that is registered is answered
/// with its shared set and the registry is unchanged; a kind that is not is
/// registered with the set that was built for it, which is the answer.
pub open spec fn memo_step(
    before: Map<(u8, usize), SteeringDirectionsCache>,
    kind: DirectionSetKind,
    answer: SteeringDirectionsCache,
    after: Map<(u8, usize), SteeringDirectionsCache>,
) -> bool {
    if before.contains_key(kind.spec_key()) {
        answer == before[kind.spec_key()] && after == before
    } else {
        after == before.insert(kind.spec_key(), answer)
    }
}

impl View for DirectionsRegistry {
    type V = Map<(u8, usize), SteeringDirectionsCache>;

    /// The registered sets, by the key of their kind.
    closed spec fn view(&self) -> Map<(u8, usize), SteeringDirectionsCache> {
        Map::new(
            |k: (u8, usize)| slot_table_entries(self.slots).contains_key(k),
            |k: (u8, usize)| *self.sets@[slot_table_entries(self.slots)[k] as int],
        )
    }
}

impl DirectionsRegistry {
    #[verifier::type_invariant]
    closed spec fn well_formed(self) -> bool {
        forall|k: (u8, usize)|
            #[trigger] slot_table_entries(self.slots).contains_key(k) ==> {
                &&& slot_table_entries(self.slots)[k] < self.sets@.len()
                &&& self.sets@[slot_table_entries(self.slots)[k] as int].spec_directions().len()
                    == k.1
            }
    }

    /// A registry that holds no set.
    pub fn new() -> (res: Self)
        ensures
            res@ == Map::<(u8, usize), SteeringDirectionsCache>::empty(),
    {
        let res = DirectionsRegistry { slots: slot_table_new(), sets: Vec::new() };
        assert(res@ =~= Map::<(u8, usize), SteeringDirectionsCache>::empty());
        res
    }

    /// The shared set registered for `kind`, if any. It has as many
    /// directions as the kind's count.
    pub fn get(&self, kind: DirectionSetKind) -> (res: Option<Arc<SteeringDirectionsCache>>)
        ensures
            res is Some <==> self@.contains_key(kind.spec_key()),
            res matches Some(set) ==> *set == self@[kind.spec_key()]
                && set.spec_directions().len() == kind.spec_count(),
    {
        proof {
            use_type_invariant(self);
        }
        match slot_table_get(&self.slots, kind.key()) {
            Some(slot) => Some(arc_clone(&self.sets[slot])),
            None => None,
        }
    }

    /// The shared set for `kind`: the registered one if there is one, and
    /// otherwise the one that `build` makes, which is registered first.
    /// `build` must make a set with as many directions as the kind's count,
    /// and so the answer has that many directions.
    pub fn get_or_build<F: FnOnce() -> SteeringDirectionsCache>(
        &mut self,
        kind: DirectionSetKind,
        build: F,
    ) -> (res: Arc<SteeringDirectionsCache>)
        requires
            build.requires(()),
            forall|c: SteeringDirectionsCache|
                #[trigger] build.ensures((), c) ==> c.spec_directions().len() == kind.spec_count(),
        ensures
            memo_step(old(self)@, kind, *res, final(self)@),
            !old(self)@.contains_key(kind.spec_key()) ==> build.ensures((), *res),
            res.spec_directions().len() == kind.spec_count(),
    {
        proof {
            use_type_invariant(&*self);
        }
        match self.get(kind) {
            Some(set) => set,
            None => {
                let set = Arc::new(build());
                let ghost before = self@;
                let mut sets: Vec<Arc<SteeringDirectionsCache>> = Vec::new();
                let mut slots = slot_table_new();
                std::mem::swap(&mut slots, &mut self.slots);
                std::mem::swap(&mut sets, &mut self.sets);
                let slot = sets.len();
                sets.push(arc_clone(&set));
                let _ = slot_table_insert(&mut slots, kind.key(), slot);
                *self = DirectionsRegistry { slots, sets };
                assert(self@ =~= before.insert(kind.spec_key(), *set));
                set
            }
        }
    }
}

impl SteeringDirectionsCache {
    /// The number of samples in the shared default direction set.
    pub const DEFAULT_DIRECTIONS_COUNT: usize = 128;

    /// Returns the shared spherical direction set with `count` sample
    /// directions from `registry`, building it with `build` on the first
    /// request; `build` must make a set of `count` directions.
    ///
    /// Later requests with the same `count` return the same shared set, not
    /// a fresh build.
    pub fn fibonacci_sphere<F: FnOnce() -> SteeringDirectionsCache>(
        registry: &mut DirectionsRegistry,
        count: usize,
        build: F,
    ) -> (res: Arc<Self>)
        requires
            build.requires(()),
            forall|c: SteeringDirectionsCache|
                #[trigger] build.ensures((), c) ==> c.spec_directions().len() == count,
        ensures
            memo_step(old(registry)@, DirectionSetKind::Spherical { count }, *res, final(registry)@),
            !old(registry)@.contains_key(DirectionSetKind::Spherical { count }.spec_key())
                ==> build.ensures((), *res),
            res.spec_directions().len() == count,
    {
        registry.get_or_build(DirectionSetKind::Spherical { count }, build)
    }

    /// Returns the shared default direction set: the spherical set with
    /// [`Self::DEFAULT_DIRECTIONS_COUNT`] samples.
    pub fn default_shared<F: FnOnce() -> SteeringDirectionsCache>(
        registry: &mut DirectionsRegistry,
        build: F,
    ) -> (res: Arc<Self>)
        requires
            build.requires(()),
            forall|c: SteeringDirectionsCache|
                #[trigger] build.ensures((), c) ==> c.spec_directions().len()
                    == Self::DEFAULT_DIRECTIONS_COUNT,
        ensures
            memo_step(
                old(registry)@,
                DirectionSetKind::Spherical { count: Self::DEFAULT_DIRECTIONS_COUNT },
                *res,
                final(registry)@,
            ),
            !old(registry)@.contains_key(
                DirectionSetKind::Spherical { count: Self::DEFAULT_DIRECTIONS_COUNT }.spec_key(),
            ) ==> build.ensures((), *res),
            res.spec_directions().len() == Self::DEFAULT_DIRECTIONS_COUNT,
    {
        Self::fibonacci_sphere(registry, Self::DEFAULT_DIRECTIONS_COUNT, build)
    }
}

/// Requesting the same kind twice gives the same shared set, and the second
/// request leaves the registry as the first one left it.
pub proof fn lemma_repeated_request_shares(
    before: Map<(u8, usize), SteeringDirectionsCache>,
    kind: DirectionSetKind,
    first: SteeringDirectionsCache,
    middle: Map<(u8, usize), SteeringDirectionsCache>,
    second: SteeringDirectionsCache,
    after: Map<(u8, usize), SteeringDirectionsCache>,
)
    requires
        memo_step(before, kind, first, middle),
        memo_step(middle, kind, second, after),
    ensures
        second == first,
        after == middle,
        middle.contains_key(kind.spec_key()) && middle[kind.spec_key()] == first,
{
}

} // verus!

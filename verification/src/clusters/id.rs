use vstd::prelude::*;
use core::hash::Hash;
use crate::outside::fixed_hash_one;

verus! {

/// A unique identifier for a logical group of entities.
#[derive(Clone, Copy, PartialEq, Eq, Structural, PartialOrd, Ord, Debug, Hash)]
pub struct ClusterId(u64);

impl ClusterId {
    /// Derives an identifier from any hashable value, with the engine's
    /// fixed-seed hasher, so that equal values give equal identifiers in
    /// every run. The identifier's integer is the whole 64-bit digest; that
    /// is not stated in the contract, since the digest comes from the value's
    /// own generic `Hash` impl, of which nothing is known here.
    pub fn new<T: Hash>(value: T) -> (res: Self) {
        ClusterId(fixed_hash_one(value))
    }

    /// The integer that identifies the cluster.
    pub closed spec fn id(self) -> u64 {
        self.0
    }

    /// The identifier whose integer is `v`.
    pub closed spec fn from_id(v: u64) -> ClusterId {
        ClusterId(v)
    }

    /// The integer that identifies the cluster.
    pub(crate) fn bits(&self) -> (res: u64)
        ensures
            res == self.id(),
    {
        self.0
    }

    /// An identifier and its integer determine each other.
    pub proof fn lemma_id_round_trip(v: u64, c: ClusterId, d: ClusterId)
        ensures
            Self::from_id(v).id() == v,
            Self::from_id(c.id()) == c,
            c.id() == d.id() ==> c == d,
    {
    }
}

impl From<u64> for ClusterId {
    fn from(value: u64) -> (res: Self) {
        ClusterId(value)
    }
}

impl vstd::std_specs::convert::FromSpecImpl<u64> for ClusterId {
    open spec fn obeys_from_spec() -> bool {
        true
    }

    open spec fn from_spec(v: u64) -> ClusterId {
        ClusterId::from_id(v)
    }
}

impl From<ClusterId> for u64 {
    fn from(value: ClusterId) -> (res: u64) {
        value.0
    }
}

impl vstd::std_specs::convert::FromSpecImpl<ClusterId> for u64 {
    open spec fn obeys_from_spec() -> bool {
        true
    }

    open spec fn from_spec(v: ClusterId) -> u64 {
        v.id()
    }
}

} // verus!

//! Declarations of the engine and physics types that the library carries
//! through its components, and the lookup tables it keeps in the engine's
//! hash map.

use vstd::prelude::*;
use avian3d::prelude::{Collider, LayerMask, ShapeCastConfig, ShapeHitData};
use bevy::ecs::entity::Entity;
use bevy::math::{Dir3, Quat, Vec3};
use bevy::platform::collections::HashMap;
use bevy::platform::hash::FixedHasher;
use core::hash::{BuildHasher, Hash};
use std::sync::Arc;

verus! {

#[verifier::external_type_specification]
#[verifier::external_body]
pub struct ExEntity(Entity);

#[verifier::external_type_specification]
#[verifier::external_body]
pub struct ExVec3(Vec3);

#[verifier::external_type_specification]
#[verifier::external_body]
pub struct ExQuat(Quat);

#[verifier::external_type_specification]
#[verifier::external_body]
pub struct ExDir3(Dir3);

#[verifier::external_type_specification]
#[verifier::external_body]
pub struct ExCollider(Collider);

#[verifier::external_type_specification]
#[verifier::external_body]
pub struct ExShapeCastConfig(ShapeCastConfig);

#[verifier::external_type_specification]
#[verifier::external_body]
pub struct ExShapeHitData(ShapeHitData);

#[verifier::external_type_specification]
#[verifier::external_body]
pub struct ExLayerMask(LayerMask);

#[verifier::external_type_specification]
#[verifier::external_body]
pub struct ExFixedHasher(FixedHasher);

#[verifier::external_type_specification]
#[verifier::external_body]
#[verifier::reject_recursive_types(K)]
#[verifier::reject_recursive_types(V)]
#[verifier::reject_recursive_types(S)]
pub struct ExHashMap<K, V, S>(HashMap<K, V, S>);

/// The engine hash map from `u64` keys to `u64` values.
pub type IdTable = HashMap<u64, u64>;

// ---------------------------------------------------------------------------
// Table from integer ids to integer ids (cluster id -> entity bits).
// ---------------------------------------------------------------------------

/// The entries held by an engine hash map from `u64` keys to `u64` values.
pub uninterp spec fn id_table_entries(m: IdTable) -> Map<u64, u64>;

/// `bevy::platform::collections::HashMap::new`: the new map holds no entry.
#[verifier::external_body]
pub(crate) fn id_table_new() -> (table: IdTable)
    ensures
        id_table_entries(table).dom().is_empty(),
{
    HashMap::new()
}

/// `HashMap::get` (the value is copied out): the value stored under `key`,
/// if any.
#[verifier::external_body]
pub(crate) fn id_table_get(m: &IdTable, key: u64) -> (r: Option<u64>)
    ensures
        r == (if id_table_entries(*m).contains_key(key) {
            Some(id_table_entries(*m)[key])
        } else {
            None::<u64>
        }),
{
    m.get(&key).copied()
}

/// `HashMap::len`: the number of entries.
#[verifier::external_body]
pub(crate) fn id_table_len(m: &IdTable) -> (r: usize)
    ensures
        r == id_table_entries(*m).len(),
{
    m.len()
}

/// `HashMap::insert`: stores `value` under `key`, replacing any earlier value,
/// and hands back the value that was replaced.
#[verifier::external_body]
pub(crate) fn id_table_insert(m: &mut IdTable, key: u64, value: u64) -> (r: Option<u64>)
    ensures
        id_table_entries(*final(m)) == id_table_entries(*old(m)).insert(key, value),
        r == (if id_table_entries(*old(m)).contains_key(key) {
            Some(id_table_entries(*old(m))[key])
        } else {
            None::<u64>
        }),
{
    m.insert(key, value)
}

/// `HashMap::remove`: drops the entry under `key` and hands back its value.
#[verifier::external_body]
pub(crate) fn id_table_remove(m: &mut IdTable, key: u64) -> (r: Option<u64>)
    ensures
        id_table_entries(*final(m)) == id_table_entries(*old(m)).remove(key),
        r == (if id_table_entries(*old(m)).contains_key(key) {
            Some(id_table_entries(*old(m))[key])
        } else {
            None::<u64>
        }),
{
    m.remove(&key)
}

// ---------------------------------------------------------------------------
// Table from a direction set's key to its slot in the registry.
// ---------------------------------------------------------------------------

/// The engine hash map from a direction set's key (shape tag, sample count)
/// to the slot that holds its shared set.
pub type SlotTable = HashMap<(u8, usize), usize>;

/// The entries held by a [`SlotTable`].
pub uninterp spec fn slot_table_entries(m: SlotTable) -> Map<(u8, usize), usize>;

/// `HashMap::new`: the new map holds no entry.
#[verifier::external_body]
pub(crate) fn slot_table_new() -> (table: SlotTable)
    ensures
        slot_table_entries(table).dom().is_empty(),
{
    HashMap::new()
}

/// `HashMap::get` (the value is copied out): the slot stored under `key`, if any.
#[verifier::external_body]
pub(crate) fn slot_table_get(m: &SlotTable, key: (u8, usize)) -> (r: Option<usize>)
    ensures
        r == (if slot_table_entries(*m).contains_key(key) {
            Some(slot_table_entries(*m)[key])
        } else {
            None::<usize>
        }),
{
    m.get(&key).copied()
}

/// `HashMap::insert`: stores `value` under `key`, replacing any earlier value,
/// and hands back the value that was replaced.
#[verifier::external_body]
pub(crate) fn slot_table_insert(m: &mut SlotTable, key: (u8, usize), value: usize) -> (r: Option<usize>)
    ensures
        slot_table_entries(*final(m)) == slot_table_entries(*old(m)).insert(key, value),
        r == (if slot_table_entries(*old(m)).contains_key(key) {
            Some(slot_table_entries(*old(m))[key])
        } else {
            None::<usize>
        }),
{
    m.insert(key, value)
}

// ---------------------------------------------------------------------------
// Calls that only produce a value.
// ---------------------------------------------------------------------------

/// `BuildHasher::hash_one` on the engine's fixed-seed `FixedHasher`. The
/// digest is a function of the value alone, but nothing is stated of it here:
/// the value's type is generic, so no name can stand for the digest.
#[verifier::external_body]
pub(crate) fn fixed_hash_one<T: Hash>(value: T) -> u64 {
    FixedHasher.hash_one(value)
}

/// `Quat::IDENTITY`. The quaternion is opaque here: nothing is stated of it.
#[verifier::external_body]
pub(crate) fn quat_identity() -> Quat {
    Quat::IDENTITY
}

/// `Dir3::X`. The direction is opaque here: nothing is stated of it.
#[verifier::external_body]
pub(crate) fn dir3_x() -> Dir3 {
    Dir3::X
}

/// `ShapeHitData::clone` (derived together with `Copy`): a copy of the hit.
pub assume_specification[ <ShapeHitData as Clone>::clone ](this: &ShapeHitData) -> (res: ShapeHitData)
    ensures
        res == *this,
;

/// `Arc::clone`: a second handle to the same shared value.
#[verifier::external_body]
pub(crate) fn arc_clone<T>(a: &Arc<T>) -> (r: Arc<T>)
    ensures
        r == *a,
{
    Arc::clone(a)
}

} // verus!

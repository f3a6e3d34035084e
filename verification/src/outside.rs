//! Declarations of the outside types that the screen logic carries, and the
//! trusted wrappers of the outside functions that it calls.
use std::any::TypeId;
use bevy::ecs::component::Tick;
use bevy::platform::collections::HashMap;
use bevy::platform::hash::NoOpHash;
use bevy::utils::TypeIdMap;
use vstd::prelude::*;

use crate::ids::ScreenId;

verus! {

/// `std::any::TypeId`: carried through as an opaque value that identifies a
/// screen's type.
#[verifier::external_type_specification]
#[verifier::external_body]
pub struct ExTypeId(TypeId);

/// `bevy_ecs::component::Tick`: carried through as an opaque change tick.
#[verifier::external_type_specification]
#[verifier::external_body]
pub struct ExTick(Tick);

/// `bevy_platform::hash::NoOpHash`: the hasher of bevy's `TypeIdMap`.
#[verifier::external_type_specification]
#[verifier::external_body]
pub struct ExNoOpHash(NoOpHash);

/// `bevy_platform::collections::HashMap`: the collection behind bevy's `TypeIdMap`.
#[verifier::external_type_specification]
#[verifier::external_body]
#[verifier::reject_recursive_types(K)]
#[verifier::reject_recursive_types(V)]
#[verifier::reject_recursive_types(S)]
pub struct ExHashMap<K, V, S>(HashMap<K, V, S>);

/// What a bevy `TypeIdMap<ScreenId>` (a `HashMap<TypeId, ScreenId, NoOpHash>`)
/// holds: the key of each entry mapped to its value.
pub uninterp spec fn type_id_map_entries(m: TypeIdMap<ScreenId>) -> Map<TypeId, ScreenId>;

/// Calls `bevy_platform::collections::HashMap::default` for a `TypeIdMap<ScreenId>`.
/// Claimed: the new map holds no entry.
#[verifier::external_body]
pub(crate) fn type_id_map_new() -> (m: TypeIdMap<ScreenId>)
    ensures
        type_id_map_entries(m) =~= Map::empty(),
{
    HashMap::default()
}

/// Calls `bevy_platform::collections::HashMap::get` on a `TypeIdMap<ScreenId>` and
/// copies the value out. Claimed: the result is the value stored under `key`, or
/// `None` where the map holds no entry for it. This takes `TypeId`'s `==` (and the
/// `Hash` that agrees with it) to be the identity of the values.
#[verifier::external_body]
pub(crate) fn type_id_map_get(m: &TypeIdMap<ScreenId>, key: &TypeId) -> (r: Option<ScreenId>)
    ensures
        r == (if type_id_map_entries(*m).contains_key(*key) {
            Some(type_id_map_entries(*m)[*key])
        } else {
            None
        }),
{
    m.get(key).copied()
}

/// Calls `bevy_platform::collections::HashMap::insert` on a `TypeIdMap<ScreenId>`.
/// Claimed: afterwards `key` maps to `value` and every other entry is kept; the
/// result is the value that `key` had before, if any.
#[verifier::external_body]
pub(crate) fn type_id_map_insert(m: &mut TypeIdMap<ScreenId>, key: TypeId, value: ScreenId) -> (r: Option<ScreenId>)
    ensures
        type_id_map_entries(*final(m)) == type_id_map_entries(*old(m)).insert(key, value),
        r == (if type_id_map_entries(*old(m)).contains_key(key) {
            Some(type_id_map_entries(*old(m))[key])
        } else {
            None
        }),
{
    m.insert(key, value)
}

/// Calls `std::any::TypeId::of::<S>()`. Nothing is claimed of the result: no
/// spec function here can name it for a type parameter.
#[verifier::external_body]
pub(crate) fn type_id_of<S: ?Sized + 'static>() -> TypeId {
    TypeId::of::<S>()
}

/// The text of a `TypeId` under its `Debug` implementation.
pub uninterp spec fn type_id_debug(id: TypeId) -> Seq<char>;

/// Formats a `TypeId` with its `Debug` implementation (`format!("{:?}", id)`), the
/// text that an unknown-screen error carries. Claimed: the text is a function of
/// the id alone.
#[verifier::external_body]
pub(crate) fn type_id_debug_text(id: &TypeId) -> (r: String)
    ensures
        r@ == type_id_debug(*id),
{
    format!("{:?}", id)
}

} // verus!

//! Registering a screen, and cleaning up its scoped entities.
use std::any::TypeId;
use bevy::ecs::component::Tick;
use vstd::prelude::*;

use crate::data::{ScreenData, ScreenRegistry};
use crate::ids::{next_count, ScreenId, ScreenIds};
use crate::info::{finish_cleanup_result, new_info, ScreenInfo, ScreenInfoView};
use crate::state::LoadStrategy;

verus! {

/// What a screen's scope builder sets, and what its schedules hold.
#[derive(Debug, Clone, Copy)]
pub struct ScopeSettings {
    /// Set explicitly: load directly into `Ready`.
    pub skip_load: Option<bool>,
    /// Set explicitly: unload directly into `Cleanup`.
    pub skip_unload: Option<bool>,
    /// Whether the main schedules run while loading.
    pub load_strategy: LoadStrategy,
    /// The number of systems in the `Loading` schedule, where it exists.
    pub loading_systems: Option<usize>,
    /// The number of systems in the `Unloading` schedule, where it exists.
    pub unloading_systems: Option<usize>,
}

/// Whether to skip a phase: as set explicitly, else exactly when the phase's
/// schedule exists and holds no system.
pub open spec fn skip_of(explicit: Option<bool>, systems: Option<usize>) -> bool {
    match explicit {
        Some(b) => b,
        None => match systems {
            Some(n) => n == 0,
            None => false,
        },
    }
}

/// Whether to skip a phase: as set explicitly, else exactly when the phase's
/// schedule exists and holds no system. Loading and unloading are so disabled
/// by default unless the screen has systems for them.
pub fn resolve_skip(explicit: Option<bool>, systems: Option<usize>) -> (r: bool)
    ensures
        r == skip_of(explicit, systems),
{
    match explicit {
        Some(b) => b,
        None => match systems {
            Some(n) => n == 0,
            None => false,
        },
    }
}

/// The data of a screen registered under `settings`.
pub open spec fn registered_info(
    name: Seq<char>,
    type_id: TypeId,
    id: ScreenId,
    tick: Tick,
    settings: ScopeSettings,
) -> ScreenInfoView {
    ScreenInfoView {
        skip_load: skip_of(settings.skip_load, settings.loading_systems),
        skip_unload: skip_of(settings.skip_unload, settings.unloading_systems),
        load_strategy: settings.load_strategy,
        ..new_info(name, type_id, id, tick)
    }
}

/// Registers the screen type `type_id` named `name`: it gets the next id, its
/// data goes at that index and the registry maps the type to it. A type that is
/// already registered is not registered again (`None`, nothing changes).
pub fn register_screen(
    registry: &mut ScreenRegistry,
    ids: &mut ScreenIds,
    data: &mut ScreenData,
    name: String,
    type_id: TypeId,
    tick: Tick,
    settings: ScopeSettings,
) -> (r: Option<ScreenId>)
    requires
        !old(registry)@.contains_key(type_id) ==> old(ids)@ <= old(data)@.len(),
    ensures
        old(registry)@.contains_key(type_id) ==> {
            &&& r is None
            &&& final(registry)@ == old(registry)@
            &&& final(ids)@ == old(ids)@
            &&& final(data)@ == old(data)@
        },
        !old(registry)@.contains_key(type_id) ==> {
            &&& r matches Some(id) && id@ == old(ids)@
            &&& final(ids)@ == next_count(old(ids)@)
            &&& final(data)@ == old(data)@.take(old(ids)@ as int).push(
                Some(registered_info(name@, type_id, r->Some_0, tick, settings)))
            &&& final(registry)@ == old(registry)@.insert(type_id, r->Some_0)
        },
{
    if registry.get(&type_id).is_ok() {
        return None;
    }
    let id = ids.next();
    let mut info = ScreenInfo::new(name, type_id, id, tick);
    info.set_skip_load(resolve_skip(settings.skip_load, settings.loading_systems));
    info.set_skip_unload(resolve_skip(settings.skip_unload, settings.unloading_systems));
    info.set_load_strategy(settings.load_strategy);
    data.insert_screen(id, info);
    registry.insert(type_id, id);
    Some(id)
}

/// Whether an entity is scoped to the screen: explicitly `ScreenScoped`, or not
/// marked `Persistent`.
pub fn is_screen_scoped(scoped: bool, persistent: bool) -> (r: bool)
    ensures
        r == (scoped || !persistent),
{
    scoped || !persistent
}

/// The entities of `candidates` that are not in `excluded`, in order.
pub open spec fn without(candidates: Seq<u64>, excluded: Seq<u64>) -> Seq<u64>
    decreases candidates.len(),
{
    if candidates.len() == 0 {
        Seq::empty()
    } else {
        without(candidates.drop_last(), excluded)
            + if excluded.contains(candidates.last()) { Seq::empty() } else { seq![candidates.last()] }
    }
}

fn contains_entity(entities: &Vec<u64>, e: u64) -> (r: bool)
    ensures
        r == entities@.contains(e),
{
    let mut i: usize = 0;
    while i < entities.len()
        invariant
            i <= entities@.len(),
            forall|j: int| 0 <= j < i ==> entities@[j] != e,
        decreases entities@.len() - i,
    {
        if entities[i] == e {
            return true;
        }
        i += 1;
    }
    false
}

/// Cleans up a screen: returns the screen-scoped entities (by their bits) to
/// despawn, all of `scoped` but the top-level ones (observers, windows,
/// one-shot systems without a parent), and finishes the screen's cleanup.
pub fn clean_up_scoped_entities(
    info: &mut ScreenInfo,
    scoped: &Vec<u64>,
    top_levels: &Vec<u64>,
    tick: Tick,
) -> (r: Vec<u64>)
    ensures
        r@ == without(scoped@, top_levels@),
        final(info)@ == finish_cleanup_result(old(info)@, tick),
{
    let mut r: Vec<u64> = Vec::new();
    let mut i: usize = 0;
    while i < scoped.len()
        invariant
            i <= scoped@.len(),
            r@ == without(scoped@.take(i as int), top_levels@),
        decreases scoped@.len() - i,
    {
        proof {
            assert(scoped@.take(i + 1).drop_last() =~= scoped@.take(i as int));
        }
        let e = scoped[i];
        if !contains_entity(top_levels, e) {
            r.push(e);
        }
        i += 1;
        proof {
            assert(r@ =~= without(scoped@.take(i as int), top_levels@));
        }
    }
    proof {
        assert(scoped@.take(scoped@.len() as int) =~= scoped@);
    }
    info.finish_cleanup(tick);
    r
}

} // verus!

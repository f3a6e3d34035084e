//! Laws of the screen lifecycle, the frames, switching and registration,
//! stated over the spec functions that the operations' contracts use.
use std::any::TypeId;
use bevy::ecs::component::Tick;
use vstd::prelude::*;

use crate::data::has_screen;
use crate::ids::{ScreenId, SwitchToScreenMsg};
use crate::info::{
    finish_cleanup_result, finish_loading_result, finish_unloading_result, fixed_runs,
    frame_result, frame_runs, load_result, queue_load_result, unload_result, ScreenInfoView,
};
use crate::labels::ScreenRunView;
use crate::params::found_by_type;
use crate::scope::{registered_info, ScopeSettings};
use crate::state::{LoadStrategy, ScreenSchedule, ScreenState};
use crate::systems::{data_runs, fixed_data_runs, frame_data, last_valid, switched};

verus! {

/// The two views agree on everything that identifies and configures a screen.
pub open spec fn same_screen(a: ScreenInfoView, b: ScreenInfoView) -> bool {
    &&& a.name == b.name
    &&& a.type_id == b.type_id
    &&& a.screen_id == b.screen_id
    &&& a.load_strategy == b.load_strategy
    &&& a.skip_load == b.skip_load
    &&& a.skip_unload == b.skip_unload
}

/// A run of a schedule that marks a state change (as opposed to a scoped schedule).
pub open spec fn is_transition_run(r: ScreenRunView) -> bool {
    !(r is Scoped)
}

/// The run that announces that the screen `v` has entered its state.
pub open spec fn announcement(v: ScreenInfoView) -> ScreenRunView {
    match v.state {
        ScreenState::Unloaded => ScreenRunView::Unloaded(v.type_id),
        ScreenState::LoadQueued => ScreenRunView::LoadQueued(v.type_id),
        ScreenState::Loading => ScreenRunView::Load(v.type_id),
        ScreenState::Ready => ScreenRunView::Ready(v.type_id),
        ScreenState::Unloading => ScreenRunView::Unload(v.type_id),
        ScreenState::Cleanup => ScreenRunView::Cleanup(v.type_id),
    }
}

/// A screen that loads and unloads through every phase goes
/// `Unloaded -> LoadQueued -> Loading -> Ready -> Unloading -> Cleanup -> Unloaded`,
/// and comes back as the same screen with its last change still to announce.
pub proof fn lemma_full_lifecycle(v: ScreenInfoView, t1: Tick, t2: Tick, t3: Tick, t4: Tick, t5: Tick, t6: Tick)
    requires
        v.state == ScreenState::Unloaded,
        !v.skip_load,
        !v.skip_unload,
    ensures
        ({
            let a = queue_load_result(v, t1);
            let b = load_result(a, t2);
            let c = finish_loading_result(b, t3);
            let d = unload_result(c, t4);
            let e = finish_unloading_result(d, t5);
            let f = finish_cleanup_result(e, t6);
            &&& a.state == ScreenState::LoadQueued
            &&& b.state == ScreenState::Loading
            &&& c.state == ScreenState::Ready
            &&& d.state == ScreenState::Unloading
            &&& e.state == ScreenState::Cleanup
            &&& f == ScreenInfoView { needs_update: true, changed_at: t6, ..v }
        }),
{
}

/// With loading and unloading skipped, a queued screen loads directly into
/// `Ready` and a ready screen unloads directly into `Cleanup`, and the cleanup
/// brings it back to `Unloaded`.
pub proof fn lemma_skipped_lifecycle(v: ScreenInfoView, t1: Tick, t2: Tick, t3: Tick, t4: Tick)
    requires
        v.state == ScreenState::Unloaded,
        v.skip_load,
        v.skip_unload,
    ensures
        ({
            let a = queue_load_result(v, t1);
            let b = load_result(a, t2);
            let c = unload_result(b, t3);
            let d = finish_cleanup_result(c, t4);
            &&& a.state == ScreenState::LoadQueued
            &&& b.state == ScreenState::Ready
            &&& c.state == ScreenState::Cleanup
            &&& d.state == ScreenState::Unloaded
        }),
{
}

/// Each operation has no effect outside the states it is documented for:
/// unloading does nothing to a screen that is already `Unloading`, `Cleanup` or
/// `Unloaded`, queueing only works from
/// `Unloaded`, finishing a load only from `Loading`, finishing an unload only
/// from `Unloading`, finishing the cleanup only from `Cleanup`, and loading only
/// from `Unloaded`, `Unloading` or `LoadQueued`. Where it has an effect it
/// changes the state and leaves the change to announce at its tick.
pub proof fn lemma_operations_guarded(v: ScreenInfoView, t: Tick)
    ensures
        (v.state == ScreenState::Unloaded || v.state == ScreenState::Unloading
            || v.state == ScreenState::Cleanup) ==> unload_result(v, t) == v,
        v.state != ScreenState::Unloaded ==> queue_load_result(v, t) == v,
        v.state != ScreenState::Loading ==> finish_loading_result(v, t) == v,
        v.state != ScreenState::Unloading ==> finish_unloading_result(v, t) == v,
        v.state != ScreenState::Cleanup ==> finish_cleanup_result(v, t) == v,
        (v.state == ScreenState::Loading || v.state == ScreenState::Ready
            || v.state == ScreenState::Cleanup) ==> load_result(v, t) == v,
        unload_result(v, t) != v ==> {
            &&& unload_result(v, t).state != v.state
            &&& unload_result(v, t).needs_update
            &&& unload_result(v, t).changed_at == t
        },
        load_result(v, t) != v ==> {
            &&& load_result(v, t).state != v.state
            &&& load_result(v, t).needs_update
            &&& load_result(v, t).changed_at == t
        },
{
}

/// No operation and no frame changes what identifies or configures a screen.
pub proof fn lemma_operations_keep_screen(v: ScreenInfoView, all_clear: bool, t: Tick)
    ensures
        same_screen(load_result(v, t), v),
        same_screen(unload_result(v, t), v),
        same_screen(queue_load_result(v, t), v),
        same_screen(finish_loading_result(v, t), v),
        same_screen(finish_unloading_result(v, t), v),
        same_screen(finish_cleanup_result(v, t), v),
        same_screen(frame_result(v, all_clear, t), v),
{
}

/// The scoped schedules of a frame follow the screen's state: `Update` runs when
/// the screen is `Ready`, or `Loading` with the `Nonblocking` strategy; so does
/// `FixedUpdate` on fixed frames; `Loading` runs exactly while loading and
/// `Unloading` exactly while unloading.
pub proof fn lemma_scoped_schedules(v: ScreenInfoView)
    ensures
        frame_runs(v).contains(ScreenRunView::Scoped(ScreenSchedule::Update, v.type_id))
            <==> (v.state == ScreenState::Ready
                || (v.state == ScreenState::Loading && v.load_strategy == LoadStrategy::Nonblocking)),
        fixed_runs(v).contains(ScreenRunView::Scoped(ScreenSchedule::FixedUpdate, v.type_id))
            <==> (v.state == ScreenState::Ready
                || (v.state == ScreenState::Loading && v.load_strategy == LoadStrategy::Nonblocking)),
        frame_runs(v).contains(ScreenRunView::Scoped(ScreenSchedule::Loading, v.type_id))
            <==> v.state == ScreenState::Loading,
        frame_runs(v).contains(ScreenRunView::Scoped(ScreenSchedule::Unloading, v.type_id))
            <==> v.state == ScreenState::Unloading,
{
    let u = ScreenRunView::Scoped(ScreenSchedule::Update, v.type_id);
    let f = ScreenRunView::Scoped(ScreenSchedule::FixedUpdate, v.type_id);
    let l = ScreenRunView::Scoped(ScreenSchedule::Loading, v.type_id);
    let w = ScreenRunView::Scoped(ScreenSchedule::Unloading, v.type_id);
    let runs = frame_runs(v);
    if v.state == ScreenState::Ready {
        assert(runs[0] == u);
    }
    if v.state == ScreenState::Loading {
        assert(runs[0] == l);
        if v.load_strategy == LoadStrategy::Nonblocking {
            assert(runs[runs.len() - 1] == u);
        }
    }
    if v.state == ScreenState::Unloading {
        assert(runs[0] == w);
    }
    if v.state == ScreenState::Ready
        || (v.state == ScreenState::Loading && v.load_strategy == LoadStrategy::Nonblocking) {
        assert(fixed_runs(v)[0] == f);
    }
    assert(runs.contains(u) ==> (v.state == ScreenState::Ready
        || (v.state == ScreenState::Loading && v.load_strategy == LoadStrategy::Nonblocking))) by {
        if runs.contains(u) {
            let k = choose|k: int| 0 <= k < runs.len() && runs[k] == u;
        }
    }
    assert(runs.contains(l) ==> v.state == ScreenState::Loading) by {
        if runs.contains(l) {
            let k = choose|k: int| 0 <= k < runs.len() && runs[k] == l;
        }
    }
    assert(runs.contains(w) ==> v.state == ScreenState::Unloading) by {
        if runs.contains(w) {
            let k = choose|k: int| 0 <= k < runs.len() && runs[k] == w;
        }
    }
    assert(fixed_runs(v).contains(f) ==> (v.state == ScreenState::Ready
        || (v.state == ScreenState::Loading && v.load_strategy == LoadStrategy::Nonblocking))) by {
        if fixed_runs(v).contains(f) {
            let k = choose|k: int| 0 <= k < fixed_runs(v).len() && fixed_runs(v)[k] == f;
        }
    }
}

/// A state change is announced once: a frame runs the schedule that marks the
/// change of an initialized screen that has one pending, and afterwards no
/// change is pending, so the next frame runs no such schedule, unless the frame
/// itself started loading a queued screen.
pub proof fn lemma_change_announced_once(v: ScreenInfoView, all_clear: bool, t: Tick)
    ensures
        v.needs_update && v.initialized ==> frame_runs(v).contains(announcement(v)),
        !(v.state == ScreenState::LoadQueued && all_clear) ==> {
            &&& !frame_result(v, all_clear, t).needs_update
            &&& forall|k: int| 0 <= k < frame_runs(frame_result(v, all_clear, t)).len()
                ==> !is_transition_run(#[trigger] frame_runs(frame_result(v, all_clear, t))[k])
        },
{
    let runs = frame_runs(v);
    if v.needs_update && v.initialized {
        match v.state {
            ScreenState::Unloaded => assert(runs[0] == announcement(v)),
            ScreenState::LoadQueued => assert(runs[0] == announcement(v)),
            ScreenState::Loading => assert(runs[1] == announcement(v)),
            ScreenState::Ready => assert(runs[1] == announcement(v)),
            ScreenState::Unloading => assert(runs[1] == announcement(v)),
            ScreenState::Cleanup => assert(runs[0] == announcement(v)),
        }
    }
}

/// A queued screen waits: a frame starts loading it exactly when every screen is
/// `Unloaded` or `LoadQueued`.
pub proof fn lemma_queued_waits_for_clear(v: ScreenInfoView, all_clear: bool, t: Tick)
    requires
        v.state == ScreenState::LoadQueued,
    ensures
        frame_result(v, all_clear, t).state == ScreenState::LoadQueued <==> !all_clear,
        all_clear ==> frame_result(v, all_clear, t).state
            == (if v.skip_load { ScreenState::Ready } else { ScreenState::Loading }),
{
}

/// Only the last valid switch message is read: the target of a frame's
/// switch is the screen of a message that names a held screen, and no later
/// message names one; with no such message there is no target.
pub proof fn lemma_last_valid_message_wins(msgs: Seq<SwitchToScreenMsg>, d: Seq<Option<ScreenInfoView>>)
    ensures
        last_valid(msgs, d) matches Some(t) ==> exists|j: int| {
            &&& 0 <= j < msgs.len()
            &&& #[trigger] msgs[j].0 == t
            &&& has_screen(d, t)
            &&& forall|k: int| j < k < msgs.len() ==> !has_screen(d, #[trigger] msgs[k].0)
        },
        last_valid(msgs, d) is None ==> forall|k: int| 0 <= k < msgs.len() ==> !has_screen(d, #[trigger] msgs[k].0),
    decreases msgs.len(),
{
    if msgs.len() > 0 {
        let rest = msgs.drop_last();
        lemma_last_valid_message_wins(rest, d);
        if has_screen(d, msgs.last().0) {
            assert(msgs[msgs.len() - 1].0 == msgs.last().0);
        } else {
            if let Some(t) = last_valid(msgs, d) {
                let j = choose|j: int| {
                    &&& 0 <= j < rest.len()
                    &&& #[trigger] rest[j].0 == t
                    &&& has_screen(d, t)
                    &&& forall|k: int| j < k < rest.len() ==> !has_screen(d, #[trigger] rest[k].0)
                };
                assert(msgs[j].0 == t);
                assert forall|k: int| j < k < msgs.len() implies !has_screen(d, #[trigger] msgs[k].0) by {
                    if k < rest.len() {
                        assert(msgs[k] == rest[k]);
                    }
                }
            } else {
                assert forall|k: int| 0 <= k < msgs.len() implies !has_screen(d, #[trigger] msgs[k].0) by {
                    if k < rest.len() {
                        assert(msgs[k] == rest[k]);
                    }
                }
            }
        }
    }
}

/// After a switch to `target`, no other screen is `LoadQueued`, `Loading` or
/// `Ready`: one that was loading or ready is unloading or cleaning up, and one
/// still waiting to load is back to `Unloaded`. The target, if it was
/// `Unloaded`, is queued to load; the store keeps which slots hold screens.
pub proof fn lemma_switch_unloads_others(d: Seq<Option<ScreenInfoView>>, target: ScreenId, tick: Tick)
    ensures
        switched(d, target, tick).len() == d.len(),
        forall|i: int| 0 <= i < d.len() && i != target@ && #[trigger] d[i] is Some ==> {
            &&& switched(d, target, tick)[i] is Some
            &&& only_target_active(switched(d, target, tick)[i]->Some_0)
        },
        forall|i: int| 0 <= i < d.len() && #[trigger] d[i] is None ==> switched(d, target, tick)[i] is None,
        has_screen(d, target) && d[target@ as int]->Some_0.state == ScreenState::Unloaded
            ==> switched(d, target, tick)[target@ as int]->Some_0.state == ScreenState::LoadQueued,
{
}

/// The screen `v` is neither waiting to load, nor loading, nor ready.
pub open spec fn only_target_active(v: ScreenInfoView) -> bool {
    &&& v.state != ScreenState::LoadQueued
    &&& v.state != ScreenState::Loading
    &&& v.state != ScreenState::Ready
}

/// The registry and the screen data agree: each registered type maps to an id
/// whose slot holds that type's screen, under that id.
pub open spec fn registry_consistent(reg: Map<TypeId, ScreenId>, d: Seq<Option<ScreenInfoView>>) -> bool {
    forall|t: TypeId| #[trigger] reg.contains_key(t) ==> {
        &&& has_screen(d, reg[t])
        &&& d[reg[t]@ as int]->Some_0.type_id == t
        &&& d[reg[t]@ as int]->Some_0.screen_id == reg[t]
    }
}

/// Registering a new type at the next id, with the store holding exactly the
/// ids handed out so far, keeps the registry and the data in agreement, and a
/// lookup by the new type then finds the registered screen.
pub proof fn lemma_register_keeps_agreement(
    reg: Map<TypeId, ScreenId>,
    d: Seq<Option<ScreenInfoView>>,
    name: Seq<char>,
    t: TypeId,
    id: ScreenId,
    tick: Tick,
    settings: ScopeSettings,
)
    requires
        registry_consistent(reg, d),
        id@ == d.len(),
        !reg.contains_key(t),
    ensures
        ({
            let v = registered_info(name, t, id, tick, settings);
            let d2 = d.take(id@ as int).push(Some(v));
            &&& registry_consistent(reg.insert(t, id), d2)
            &&& found_by_type(reg.insert(t, id), d2, t, Ok(v))
        }),
{
    let v = registered_info(name, t, id, tick, settings);
    let d2 = d.take(id@ as int).push(Some(v));
    assert(d.take(id@ as int) =~= d);
    assert forall|u: TypeId| #[trigger] reg.insert(t, id).contains_key(u) implies {
        &&& has_screen(d2, reg.insert(t, id)[u])
        &&& d2[reg.insert(t, id)[u]@ as int]->Some_0.type_id == u
        &&& d2[reg.insert(t, id)[u]@ as int]->Some_0.screen_id == reg.insert(t, id)[u]
    } by {
        if u != t {
            assert(reg.contains_key(u));
            assert(d2[reg[u]@ as int] == d[reg[u]@ as int]);
        }
    }
}

/// Switching keeps the registry and the data in agreement.
pub proof fn lemma_switch_keeps_agreement(
    reg: Map<TypeId, ScreenId>,
    d: Seq<Option<ScreenInfoView>>,
    target: ScreenId,
    tick: Tick,
)
    requires
        registry_consistent(reg, d),
    ensures
        registry_consistent(reg, switched(d, target, tick)),
{
    assert forall|t: TypeId| #[trigger] reg.contains_key(t) implies {
        &&& has_screen(switched(d, target, tick), reg[t])
        &&& switched(d, target, tick)[reg[t]@ as int]->Some_0.type_id == t
        &&& switched(d, target, tick)[reg[t]@ as int]->Some_0.screen_id == reg[t]
    } by {
        lemma_operations_keep_screen(d[reg[t]@ as int]->Some_0, false, tick);
    }
}

/// A frame keeps the registry and the data in agreement.
pub proof fn lemma_frame_keeps_agreement(reg: Map<TypeId, ScreenId>, d: Seq<Option<ScreenInfoView>>, tick: Tick)
    requires
        registry_consistent(reg, d),
    ensures
        registry_consistent(reg, frame_data(d, tick)),
{
    assert forall|t: TypeId| #[trigger] reg.contains_key(t) implies {
        &&& has_screen(frame_data(d, tick), reg[t])
        &&& frame_data(d, tick)[reg[t]@ as int]->Some_0.type_id == t
        &&& frame_data(d, tick)[reg[t]@ as int]->Some_0.screen_id == reg[t]
    } by {
        let v = d[reg[t]@ as int]->Some_0;
        lemma_operations_keep_screen(v, crate::systems::all_clear(d), tick);
    }
}

} // verus!

verus! {

/// A switch leaves a target that is not `Unloaded` exactly as it was: a screen
/// already on show (or loading, queued, unloading or cleaning up) is neither
/// unloaded nor queued again. An `Unloaded` target is queued.
pub proof fn lemma_switch_keeps_busy_target(d: Seq<Option<ScreenInfoView>>, target: ScreenId, tick: Tick)
    requires
        has_screen(d, target),
    ensures
        d[target@ as int]->Some_0.state != ScreenState::Unloaded
            ==> switched(d, target, tick)[target@ as int] == d[target@ as int],
        d[target@ as int]->Some_0.state == ScreenState::Unloaded
            ==> switched(d, target, tick)[target@ as int]->Some_0.state == ScreenState::LoadQueued,
{
}

/// A frame runs no schedule twice for one screen; a ready screen runs its
/// `Update` schedule exactly once, first, followed only by its ready
/// announcement when that is pending.
pub proof fn lemma_frame_runs_once(v: ScreenInfoView)
    ensures
        forall|i: int, j: int| 0 <= i < j < frame_runs(v).len() ==> frame_runs(v)[i] != frame_runs(v)[j],
        v.state == ScreenState::Ready ==> {
            &&& frame_runs(v)[0] == ScreenRunView::Scoped(ScreenSchedule::Update, v.type_id)
            &&& frame_runs(v).len() == (if v.needs_update { 2int } else { 1int })
        },
{
    let r = frame_runs(v);
    assert forall|i: int, j: int| 0 <= i < j < r.len() implies r[i] != r[j] by {
        match v.state {
            ScreenState::Loading => {
                if v.needs_update {
                    assert(r[0] == ScreenRunView::Scoped(ScreenSchedule::Loading, v.type_id));
                    assert(r[1] == ScreenRunView::Load(v.type_id));
                    if v.load_strategy == LoadStrategy::Nonblocking {
                        assert(r[2] == ScreenRunView::Scoped(ScreenSchedule::Update, v.type_id));
                    }
                } else {
                    assert(r[0] == ScreenRunView::Scoped(ScreenSchedule::Loading, v.type_id));
                    if v.load_strategy == LoadStrategy::Nonblocking {
                        assert(r[1] == ScreenRunView::Scoped(ScreenSchedule::Update, v.type_id));
                    }
                }
            },
            ScreenState::Ready => {
                assert(r[0] == ScreenRunView::Scoped(ScreenSchedule::Update, v.type_id));
                if v.needs_update {
                    assert(r[1] == ScreenRunView::Ready(v.type_id));
                }
            },
            ScreenState::Unloading => {
                assert(r[0] == ScreenRunView::Scoped(ScreenSchedule::Unloading, v.type_id));
                if v.needs_update {
                    assert(r[1] == ScreenRunView::Unload(v.type_id));
                }
            },
            _ => {},
        }
    }
    if v.state == ScreenState::Ready {
        assert(r[0] == ScreenRunView::Scoped(ScreenSchedule::Update, v.type_id));
    }
}

/// A queued screen waits for every other screen: while any held screen is
/// loading, ready, unloading or cleaning up, a frame leaves every queued screen
/// queued; once every held screen is `Unloaded` or `LoadQueued`, a frame takes
/// every queued screen out of the queue.
pub proof fn lemma_queue_waits_for_every_screen(d: Seq<Option<ScreenInfoView>>, tick: Tick)
    ensures
        forall|i: int, j: int|
            0 <= i < d.len() && 0 <= j < d.len() && #[trigger] d[i] is Some && #[trigger] d[j] is Some
                && d[i]->Some_0.state == ScreenState::LoadQueued
                && d[j]->Some_0.state != ScreenState::Unloaded
                && d[j]->Some_0.state != ScreenState::LoadQueued
                ==> frame_data(d, tick)[i]->Some_0.state == ScreenState::LoadQueued,
        (forall|j: int| 0 <= j < d.len() && #[trigger] d[j] is Some
            ==> (d[j]->Some_0.state == ScreenState::Unloaded || d[j]->Some_0.state == ScreenState::LoadQueued))
            ==> forall|i: int| 0 <= i < d.len() && #[trigger] d[i] is Some
                && d[i]->Some_0.state == ScreenState::LoadQueued
                ==> frame_data(d, tick)[i]->Some_0.state != ScreenState::LoadQueued,
{
    assert forall|i: int, j: int|
        0 <= i < d.len() && 0 <= j < d.len() && #[trigger] d[i] is Some && #[trigger] d[j] is Some
            && d[i]->Some_0.state == ScreenState::LoadQueued
            && d[j]->Some_0.state != ScreenState::Unloaded
            && d[j]->Some_0.state != ScreenState::LoadQueued
        implies frame_data(d, tick)[i]->Some_0.state == ScreenState::LoadQueued by {
        assert(!crate::systems::all_clear(d));
    }
}

/// Unloading a loading or ready screen goes to `Unloading` when the screen has
/// unloading to do and straight to `Cleanup` when unloading is skipped; whether
/// loading is skipped plays no part.
pub proof fn lemma_unload_follows_skip_unload(v: ScreenInfoView, t: Tick, skip_load: bool)
    requires
        v.state == ScreenState::Loading || v.state == ScreenState::Ready,
    ensures
        unload_result(v, t).state == ScreenState::Cleanup <==> v.skip_unload,
        unload_result(v, t).state == ScreenState::Unloading <==> !v.skip_unload,
        unload_result(ScreenInfoView { skip_load, ..v }, t).state == unload_result(v, t).state,
{
}

/// A fixed frame visits every held screen: each held screen that is ready, or
/// loading without blocking, runs its `FixedUpdate` schedule; and a store whose
/// screens are none of these runs nothing.
pub proof fn lemma_fixed_frame_visits_all(d: Seq<Option<ScreenInfoView>>)
    ensures
        forall|i: int| 0 <= i < d.len() && #[trigger] d[i] is Some
            && (d[i]->Some_0.state == ScreenState::Ready
                || (d[i]->Some_0.state == ScreenState::Loading
                    && d[i]->Some_0.load_strategy == LoadStrategy::Nonblocking))
            ==> fixed_data_runs(d).contains(
                ScreenRunView::Scoped(ScreenSchedule::FixedUpdate, d[i]->Some_0.type_id)),
        (forall|i: int| 0 <= i < d.len() && #[trigger] d[i] is Some
            ==> !(d[i]->Some_0.state == ScreenState::Ready
                || (d[i]->Some_0.state == ScreenState::Loading
                    && d[i]->Some_0.load_strategy == LoadStrategy::Nonblocking)))
            ==> fixed_data_runs(d).len() == 0,
    decreases d.len(),
{
    if d.len() > 0 {
        let p = d.drop_last();
        lemma_fixed_frame_visits_all(p);
        let tail = match d.last() {
            Some(v) => fixed_runs(v),
            None => Seq::<ScreenRunView>::empty(),
        };
        assert(fixed_data_runs(d) == fixed_data_runs(p) + tail);
        assert forall|i: int| 0 <= i < d.len() && #[trigger] d[i] is Some
            && (d[i]->Some_0.state == ScreenState::Ready
                || (d[i]->Some_0.state == ScreenState::Loading
                    && d[i]->Some_0.load_strategy == LoadStrategy::Nonblocking))
            implies fixed_data_runs(d).contains(
                ScreenRunView::Scoped(ScreenSchedule::FixedUpdate, d[i]->Some_0.type_id)) by {
            let x = ScreenRunView::Scoped(ScreenSchedule::FixedUpdate, d[i]->Some_0.type_id);
            if i < d.len() - 1 {
                assert(p[i] == d[i]);
                let k = choose|k: int| 0 <= k < fixed_data_runs(p).len() && fixed_data_runs(p)[k] == x;
                assert(fixed_data_runs(d)[k] == x);
            } else {
                assert(tail[0] == x);
                assert(fixed_data_runs(d)[fixed_data_runs(p).len() as int] == x);
            }
        }
        if forall|i: int| 0 <= i < d.len() && #[trigger] d[i] is Some
            ==> !(d[i]->Some_0.state == ScreenState::Ready
                || (d[i]->Some_0.state == ScreenState::Loading
                    && d[i]->Some_0.load_strategy == LoadStrategy::Nonblocking)) {
            assert forall|i: int| 0 <= i < p.len() && #[trigger] p[i] is Some
                implies !(p[i]->Some_0.state == ScreenState::Ready
                    || (p[i]->Some_0.state == ScreenState::Loading
                        && p[i]->Some_0.load_strategy == LoadStrategy::Nonblocking)) by {
                assert(p[i] == d[i]);
            }
            assert(d[d.len() - 1] is Some ==> tail.len() == 0);
        }
    }
}

/// An `Update` frame visits every held screen: each ready screen runs its
/// `Update` schedule, each loading one its `Loading` schedule, and each
/// unloading one its `Unloading` schedule.
pub proof fn lemma_frame_visits_all(d: Seq<Option<ScreenInfoView>>)
    ensures
        forall|i: int| 0 <= i < d.len() && #[trigger] d[i] is Some
            && d[i]->Some_0.state == ScreenState::Ready
            ==> data_runs(d).contains(ScreenRunView::Scoped(ScreenSchedule::Update, d[i]->Some_0.type_id)),
        forall|i: int| 0 <= i < d.len() && #[trigger] d[i] is Some
            && d[i]->Some_0.state == ScreenState::Loading
            ==> data_runs(d).contains(ScreenRunView::Scoped(ScreenSchedule::Loading, d[i]->Some_0.type_id)),
        forall|i: int| 0 <= i < d.len() && #[trigger] d[i] is Some
            && d[i]->Some_0.state == ScreenState::Unloading
            ==> data_runs(d).contains(ScreenRunView::Scoped(ScreenSchedule::Unloading, d[i]->Some_0.type_id)),
    decreases d.len(),
{
    if d.len() > 0 {
        let p = d.drop_last();
        lemma_frame_visits_all(p);
        let tail = match d.last() {
            Some(v) => frame_runs(v),
            None => Seq::<ScreenRunView>::empty(),
        };
        assert(data_runs(d) == data_runs(p) + tail);
        assert forall|i: int, kind: ScreenSchedule|
            0 <= i < d.len() && #[trigger] d[i] is Some
            && ((kind == ScreenSchedule::Update && d[i]->Some_0.state == ScreenState::Ready)
                || (kind == ScreenSchedule::Loading && d[i]->Some_0.state == ScreenState::Loading)
                || (kind == ScreenSchedule::Unloading && d[i]->Some_0.state == ScreenState::Unloading))
            implies #[trigger] data_runs(d).contains(ScreenRunView::Scoped(kind, d[i]->Some_0.type_id)) by {
            let x = ScreenRunView::Scoped(kind, d[i]->Some_0.type_id);
            if i < d.len() - 1 {
                assert(p[i] == d[i]);
                assert(data_runs(p).contains(x));
                let k = choose|k: int| 0 <= k < data_runs(p).len() && data_runs(p)[k] == x;
                assert(data_runs(d)[k] == x);
            } else {
                assert(tail[0] == x);
                assert(data_runs(d)[data_runs(p).len() as int] == x);
            }
        }
    }
}

} // verus!

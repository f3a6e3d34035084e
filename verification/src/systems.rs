//! The decisions of the screen systems: switching screens, running the
//! schedules of each frame, and picking the initial screen.
use std::any::TypeId;
use bevy::ecs::component::Tick;
use vstd::prelude::*;

use crate::data::{first_named, has_screen, named_at, ScreenData, ScreenRegistry};
use crate::ids::{
    CurrentScreen, InitialScreen, ScreenChanged, ScreenError, ScreenId, SwitchToScreenMsg,
};
use crate::info::{
    fixed_runs, frame_result, frame_runs, queue_load_result, unload_result, ScreenInfoView,
};
use crate::labels::{runs_view, ScreenRun, ScreenRunView};
use crate::laws::{lemma_switch_unloads_others, only_target_active};
use crate::outside::type_id_debug;
use crate::params::Screens;
use crate::state::ScreenState;

verus! {

/// The id of the last message in `msgs` that names a screen the store holds.
pub open spec fn last_valid(msgs: Seq<SwitchToScreenMsg>, d: Seq<Option<ScreenInfoView>>) -> Option<ScreenId>
    decreases msgs.len(),
{
    if msgs.len() == 0 {
        None
    } else if has_screen(d, msgs.last().0) {
        Some(msgs.last().0)
    } else {
        last_valid(msgs.drop_last(), d)
    }
}

/// The store after switching to `target`: `target` is queued to load and every
/// other screen is unloaded.
pub open spec fn switched(d: Seq<Option<ScreenInfoView>>, target: ScreenId, tick: Tick) -> Seq<Option<ScreenInfoView>> {
    Seq::new(d.len(), |i: int| match d[i] {
        Some(v) => Some(if i == target@ { queue_load_result(v, tick) } else { unload_result(v, tick) }),
        None => None,
    })
}

/// Reads the switch messages of one frame. The last message that names a
/// registered screen wins: that screen is queued to load, all others are
/// unloaded (one still waiting to load goes back to `Unloaded`), it becomes the
/// current screen, and the change is returned. Afterwards no screen but the
/// target is `LoadQueued`, `Loading` or `Ready`. Without such a message nothing
/// changes.
pub fn handle_switch_msg(
    msgs: &Vec<SwitchToScreenMsg>,
    data: &mut ScreenData,
    current: &mut CurrentScreen,
    tick: Tick,
) -> (r: Option<ScreenChanged>)
    ensures
        match last_valid(msgs@, old(data)@) {
            None => r is None && final(data)@ == old(data)@ && final(current)@ == old(current)@,
            Some(t) => {
                &&& r == Some(ScreenChanged { from: old(current)@, to: t })
                &&& final(data)@ == switched(old(data)@, t, tick)
                &&& final(current)@ == Some(t)
                &&& forall|i: int| 0 <= i < final(data)@.len() && i != t@ && #[trigger] final(data)@[i] is Some
                    ==> only_target_active(final(data)@[i]->Some_0)
            },
        },
{
    let mut k: usize = msgs.len();
    let mut found: Option<ScreenId> = None;
    proof {
        assert(msgs@.take(k as int) =~= msgs@);
    }
    while k > 0 && found.is_none()
        invariant
            k <= msgs@.len(),
            found is None ==> last_valid(msgs@, data@) == last_valid(msgs@.take(k as int), data@),
            found is Some ==> last_valid(msgs@, data@) == found,
        decreases k,
    {
        let msg = msgs[k - 1];
        let ghost prefix = msgs@.take(k as int);
        proof {
            assert(prefix.drop_last() =~= msgs@.take(k - 1));
            assert(prefix.last() == msg);
        }
        k -= 1;
        if data.get(msg.0).is_ok() {
            found = Some(msg.0);
        }
    }
    proof {
        if found is None {
            assert(msgs@.take(0) =~= Seq::<SwitchToScreenMsg>::empty());
        }
    }
    let target = match found {
        Some(t) => t,
        None => {
            return None;
        },
    };
    let ghost d0 = data@;
    let len = data.len();
    let mut i: usize = 0;
    while i < len
        invariant
            len == d0.len(),
            i <= len,
            data@.len() == len,
            forall|j: int| 0 <= j < i ==> data@[j] == #[trigger] switched(d0, target, tick)[j],
            forall|j: int| i <= j < len ==> data@[j] == #[trigger] d0[j],
        decreases len - i,
    {
        let id = ScreenId::from_index(i);
        match data.get_mut(id) {
            Ok(info) => {
                if i == target.index() {
                    info.queue_load(tick);
                } else {
                    info.unload(tick);
                }
            },
            Err(_) => {},
        }
        i += 1;
    }
    proof {
        assert(data@ =~= switched(d0, target, tick));
        lemma_switch_unloads_others(d0, target, tick);
    }
    let from = current.get_id();
    current.set(Some(target));
    Some(ScreenChanged { from, to: target })
}

/// Every screen that the store holds is `Unloaded` or `LoadQueued`.
pub open spec fn all_clear(d: Seq<Option<ScreenInfoView>>) -> bool {
    forall|i: int| 0 <= i < d.len() && #[trigger] d[i] is Some
        ==> (d[i]->Some_0.state == ScreenState::Unloaded || d[i]->Some_0.state == ScreenState::LoadQueued)
}

/// The store after one `Update` frame at `tick`.
pub open spec fn frame_data(d: Seq<Option<ScreenInfoView>>, tick: Tick) -> Seq<Option<ScreenInfoView>> {
    Seq::new(d.len(), |i: int| match d[i] {
        Some(v) => Some(frame_result(v, all_clear(d), tick)),
        None => None,
    })
}

/// The schedules that one `Update` frame runs, screen by screen in index order.
pub open spec fn data_runs(d: Seq<Option<ScreenInfoView>>) -> Seq<ScreenRunView>
    decreases d.len(),
{
    if d.len() == 0 {
        Seq::empty()
    } else {
        data_runs(d.drop_last()) + match d.last() {
            Some(v) => frame_runs(v),
            None => Seq::empty(),
        }
    }
}

/// The schedules that one `FixedUpdate` frame runs, screen by screen in index order.
pub open spec fn fixed_data_runs(d: Seq<Option<ScreenInfoView>>) -> Seq<ScreenRunView>
    decreases d.len(),
{
    if d.len() == 0 {
        Seq::empty()
    } else {
        fixed_data_runs(d.drop_last()) + match d.last() {
            Some(v) => fixed_runs(v),
            None => Seq::empty(),
        }
    }
}

/// Whether every screen is `Unloaded` or `LoadQueued`.
pub fn screens_all_clear(data: &ScreenData) -> (r: bool)
    ensures
        r == all_clear(data@),
{
    let len = data.len();
    let mut i: usize = 0;
    while i < len
        invariant
            len == data@.len(),
            i <= len,
            forall|j: int| 0 <= j < i && #[trigger] data@[j] is Some
                ==> (data@[j]->Some_0.state == ScreenState::Unloaded
                    || data@[j]->Some_0.state == ScreenState::LoadQueued),
        decreases len - i,
    {
        match data.get(ScreenId::from_index(i)) {
            Ok(info) => {
                let s = info.state();
                if !(s == ScreenState::Unloaded || s == ScreenState::LoadQueued) {
                    assert(data@[i as int] is Some);
                    return false;
                }
            },
            Err(_) => {},
        }
        i += 1;
    }
    true
}

/// Runs one `Update` frame: each screen, in index order, runs the schedules of
/// its state and announces its pending change; a queued screen starts loading
/// once every screen is `Unloaded` or `LoadQueued`. Returns the schedules to run.
pub fn run_schedules(data: &mut ScreenData, tick: Tick) -> (r: Vec<ScreenRun>)
    ensures
        final(data)@ == frame_data(old(data)@, tick),
        runs_view(r@) == data_runs(old(data)@),
{
    let clear = screens_all_clear(data);
    let ghost d0 = data@;
    let len = data.len();
    let mut runs: Vec<ScreenRun> = Vec::new();
    let mut i: usize = 0;
    while i < len
        invariant
            len == d0.len(),
            i <= len,
            clear == all_clear(d0),
            data@.len() == len,
            forall|j: int| 0 <= j < i ==> data@[j] == #[trigger] frame_data(d0, tick)[j],
            forall|j: int| i <= j < len ==> data@[j] == #[trigger] d0[j],
            runs_view(runs@) == data_runs(d0.take(i as int)),
        decreases len - i,
    {
        proof {
            assert(d0.take(i + 1).drop_last() =~= d0.take(i as int));
        }
        match data.get_mut(ScreenId::from_index(i)) {
            Ok(info) => {
                let mut more = info.update_schedules(clear, tick);
                proof {
                    assert(runs_view(runs@ + more@) =~= runs_view(runs@) + runs_view(more@));
                }
                runs.append(&mut more);
            },
            Err(_) => {},
        }
        i += 1;
        proof {
            assert(runs_view(runs@) =~= data_runs(d0.take(i as int)));
        }
    }
    proof {
        assert(data@ =~= frame_data(d0, tick));
        assert(d0.take(len as int) =~= d0);
    }
    runs
}

/// Runs one `FixedUpdate` frame: each ready screen, and each loading screen
/// with the `Nonblocking` strategy, runs its `FixedUpdate` schedule.
pub fn run_fixed_schedules(data: &ScreenData) -> (r: Vec<ScreenRun>)
    ensures
        runs_view(r@) == fixed_data_runs(data@),
{
    let len = data.len();
    let mut runs: Vec<ScreenRun> = Vec::new();
    let mut i: usize = 0;
    while i < len
        invariant
            len == data@.len(),
            i <= len,
            runs_view(runs@) == fixed_data_runs(data@.take(i as int)),
        decreases len - i,
    {
        proof {
            assert(data@.take(i + 1).drop_last() =~= data@.take(i as int));
        }
        match data.get(ScreenId::from_index(i)) {
            Ok(info) => {
                let mut more = info.fixed_schedules();
                proof {
                    assert(runs_view(runs@ + more@) =~= runs_view(runs@) + runs_view(more@));
                }
                runs.append(&mut more);
            },
            Err(_) => {},
        }
        i += 1;
        proof {
            assert(runs_view(runs@) =~= fixed_data_runs(data@.take(i as int)));
        }
    }
    proof {
        assert(data@.take(len as int) =~= data@);
    }
    runs
}

} // verus!

verus! {

/// The message that switches to the initial screen: none where no initial
/// screen is set, the first screen with the initial screen's name where one is
/// set, and a `NoSuchScreen` error that carries the name where no screen has it.
pub fn initial_screen(initial: &InitialScreen, screens: &Screens) -> (r: Result<Option<SwitchToScreenMsg>, ScreenError>)
    ensures
        initial@ is None ==> r matches Ok(None),
        initial@ is Some ==> match r {
            Ok(Some(m)) => exists|i: int| #[trigger] first_named(screens@.1, initial@->Some_0, i)
                && m.0 == screens@.1[i]->Some_0.screen_id,
            Ok(None) => false,
            Err(e) => {
                &&& forall|j: int| !#[trigger] named_at(screens@.1, initial@->Some_0, j)
                &&& e matches ScreenError::NoSuchScreen(s) && s@ == initial@->Some_0
            },
        },
{
    match initial.name() {
        Some(name) => {
            let text = name.as_str();
            assert(text@ == initial@->Some_0);
            match screens.get_by_name(text) {
                Ok(info) => {
                    let m = SwitchToScreenMsg(info.screen_id());
                    proof {
                        let i = choose|i: int| #[trigger] first_named(screens@.1, text@, i)
                            && screens@.1[i] == Some(info@);
                        assert(first_named(screens@.1, initial@->Some_0, i));
                        assert(m.0 == screens@.1[i]->Some_0.screen_id);
                    }
                    Ok(Some(m))
                },
                Err(e) => Err(e),
            }
        },
        None => Ok(None),
    }
}

/// The message that switches to the screen type `type_id`, or `NoSuchScreen`
/// where that type is not registered.
pub fn on_switch_screen(registry: &ScreenRegistry, type_id: &TypeId) -> (r: Result<SwitchToScreenMsg, ScreenError>)
    ensures
        match r {
            Ok(m) => registry@.contains_key(*type_id) && m.0 == registry@[*type_id],
            Err(e) => !registry@.contains_key(*type_id)
                && (e matches ScreenError::NoSuchScreen(s) && s@ == type_id_debug(*type_id)),
        },
{
    match registry.get(type_id) {
        Ok(id) => Ok(SwitchToScreenMsg(id)),
        Err(e) => Err(e),
    }
}

} // verus!

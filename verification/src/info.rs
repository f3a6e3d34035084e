//! Data about one screen, and its lifecycle state machine.
use std::any::TypeId;
use bevy::ecs::component::Tick;
use vstd::prelude::*;

use crate::ids::ScreenId;
use crate::labels::{
    runs_view, OnScreenCleanup, OnScreenLoad, OnScreenLoadQueued, OnScreenReady, OnScreenUnload,
    OnScreenUnloaded, ScreenRun, ScreenRunView, ScreenScheduleLabel,
};
use crate::state::{LoadStrategy, ScreenSchedule, ScreenState};

verus! {

/// Data about a given screen: its identity, its `ScreenState`, and how it loads.
#[derive(Debug)]
pub struct ScreenInfo {
    name: String,
    state: ScreenState,
    type_id: TypeId,
    screen_id: ScreenId,
    needs_update: bool,
    changed_at: Tick,
    initialized: bool,
    load_strategy: LoadStrategy,
    skip_load: bool,
    skip_unload: bool,
}

/// The abstract value of a `ScreenInfo`.
pub struct ScreenInfoView {
    /// Name of the screen.
    pub name: Seq<char>,
    /// Where the screen is in its lifecycle.
    pub state: ScreenState,
    /// Id of the screen's type.
    pub type_id: TypeId,
    /// Index of the screen in `ScreenData`.
    pub screen_id: ScreenId,
    /// The state has changed, and the schedule that marks the change has yet to run.
    pub needs_update: bool,
    /// Tick of the last change.
    pub changed_at: Tick,
    /// The screen has been seen by a frame at least once.
    pub initialized: bool,
    /// Whether the main schedules run while loading.
    pub load_strategy: LoadStrategy,
    /// Loading goes directly to `Ready`.
    pub skip_load: bool,
    /// Unloading goes directly to `Cleanup`.
    pub skip_unload: bool,
}

impl View for ScreenInfo {
    type V = ScreenInfoView;

    closed spec fn view(&self) -> ScreenInfoView {
        ScreenInfoView {
            name: self.name@,
            state: self.state,
            type_id: self.type_id,
            screen_id: self.screen_id,
            needs_update: self.needs_update,
            changed_at: self.changed_at,
            initialized: self.initialized,
            load_strategy: self.load_strategy,
            skip_load: self.skip_load,
            skip_unload: self.skip_unload,
        }
    }
}

/// A freshly registered screen.
pub open spec fn new_info(name: Seq<char>, type_id: TypeId, screen_id: ScreenId, tick: Tick) -> ScreenInfoView {
    ScreenInfoView {
        name,
        state: ScreenState::Unloaded,
        type_id,
        screen_id,
        needs_update: true,
        changed_at: tick,
        initialized: false,
        load_strategy: LoadStrategy::Blocking,
        skip_load: true,
        skip_unload: true,
    }
}

/// `v` moved to state `s` at `tick`, with the change still to be announced.
pub open spec fn changed_to(v: ScreenInfoView, s: ScreenState, tick: Tick) -> ScreenInfoView {
    ScreenInfoView { state: s, needs_update: true, changed_at: tick, ..v }
}

/// `v` with its change announced at `tick`.
pub open spec fn settled(v: ScreenInfoView, tick: Tick) -> ScreenInfoView {
    ScreenInfoView { needs_update: false, changed_at: tick, ..v }
}

/// Loading: from `Unloaded`, `Unloading` or `LoadQueued` to `Ready` (when loading
/// is skipped) or `Loading`; no effect from any other state.
pub open spec fn load_result(v: ScreenInfoView, tick: Tick) -> ScreenInfoView {
    match v.state {
        ScreenState::Unloaded | ScreenState::Unloading | ScreenState::LoadQueued =>
            changed_to(v, if v.skip_load { ScreenState::Ready } else { ScreenState::Loading }, tick),
        _ => v,
    }
}

/// Unloading: from `Loading` or `Ready` to `Cleanup` (when unloading is skipped) or
/// `Unloading`; a screen still waiting to load (`LoadQueued`) goes back to
/// `Unloaded`; no effect from `Unloaded`, `Unloading` or `Cleanup`.
pub open spec fn unload_result(v: ScreenInfoView, tick: Tick) -> ScreenInfoView {
    match v.state {
        ScreenState::Loading | ScreenState::Ready =>
            changed_to(v, if v.skip_unload { ScreenState::Cleanup } else { ScreenState::Unloading }, tick),
        ScreenState::LoadQueued => changed_to(v, ScreenState::Unloaded, tick),
        _ => v,
    }
}

/// Queueing a load: from `Unloaded` to `LoadQueued`; no effect from any other state.
pub open spec fn queue_load_result(v: ScreenInfoView, tick: Tick) -> ScreenInfoView {
    if v.state == ScreenState::Unloaded { changed_to(v, ScreenState::LoadQueued, tick) } else { v }
}

/// Finishing a load: from `Loading` to `Ready`; no effect from any other state.
pub open spec fn finish_loading_result(v: ScreenInfoView, tick: Tick) -> ScreenInfoView {
    if v.state == ScreenState::Loading { changed_to(v, ScreenState::Ready, tick) } else { v }
}

/// Finishing an unload: from `Unloading` to `Cleanup`; no effect from any other state.
pub open spec fn finish_unloading_result(v: ScreenInfoView, tick: Tick) -> ScreenInfoView {
    if v.state == ScreenState::Unloading { changed_to(v, ScreenState::Cleanup, tick) } else { v }
}

/// Finishing the cleanup: from `Cleanup` to `Unloaded`; no effect from any other state.
pub open spec fn finish_cleanup_result(v: ScreenInfoView, tick: Tick) -> ScreenInfoView {
    if v.state == ScreenState::Cleanup { changed_to(v, ScreenState::Unloaded, tick) } else { v }
}

/// The run of scoped schedule `kind` of the screen `v`.
pub open spec fn scoped(v: ScreenInfoView, kind: ScreenSchedule) -> ScreenRunView {
    ScreenRunView::Scoped(kind, v.type_id)
}

/// `s` when `b` holds, else nothing.
pub open spec fn when(b: bool, s: Seq<ScreenRunView>) -> Seq<ScreenRunView> {
    if b { s } else { Seq::empty() }
}

/// The schedules that one `Update` frame runs for the screen `v`, in order.
pub open spec fn frame_runs(v: ScreenInfoView) -> Seq<ScreenRunView> {
    match v.state {
        ScreenState::Unloaded =>
            when(v.initialized && v.needs_update, seq![ScreenRunView::Unloaded(v.type_id)]),
        ScreenState::LoadQueued =>
            when(v.needs_update, seq![ScreenRunView::LoadQueued(v.type_id)]),
        ScreenState::Loading =>
            seq![scoped(v, ScreenSchedule::Loading)]
                + when(v.needs_update, seq![ScreenRunView::Load(v.type_id)])
                + when(v.load_strategy == LoadStrategy::Nonblocking, seq![scoped(v, ScreenSchedule::Update)]),
        ScreenState::Ready =>
            seq![scoped(v, ScreenSchedule::Update)]
                + when(v.needs_update, seq![ScreenRunView::Ready(v.type_id)]),
        ScreenState::Unloading =>
            seq![scoped(v, ScreenSchedule::Unloading)]
                + when(v.needs_update, seq![ScreenRunView::Unload(v.type_id)]),
        ScreenState::Cleanup =>
            when(v.needs_update, seq![ScreenRunView::Cleanup(v.type_id)]),
    }
}

/// The screen `v` after one `Update` frame at `tick`: the pending change is
/// announced, a first frame marks an unloaded screen initialized, and a queued
/// screen starts loading once `all_clear` holds.
pub open spec fn frame_result(v: ScreenInfoView, all_clear: bool, tick: Tick) -> ScreenInfoView {
    match v.state {
        ScreenState::Unloaded =>
            if !v.initialized || v.needs_update {
                ScreenInfoView { initialized: true, ..settled(v, tick) }
            } else {
                v
            },
        ScreenState::LoadQueued => {
            let w = if v.needs_update { settled(v, tick) } else { v };
            if all_clear { load_result(w, tick) } else { w }
        },
        _ => if v.needs_update { settled(v, tick) } else { v },
    }
}

/// The schedules that one `FixedUpdate` frame runs for the screen `v`.
pub open spec fn fixed_runs(v: ScreenInfoView) -> Seq<ScreenRunView> {
    if v.state == ScreenState::Ready
        || (v.state == ScreenState::Loading && v.load_strategy == LoadStrategy::Nonblocking) {
        seq![scoped(v, ScreenSchedule::FixedUpdate)]
    } else {
        Seq::empty()
    }
}

impl ScreenInfo {
    /// A newly registered screen: `Unloaded`, with loading and unloading skipped
    /// and the `Blocking` load strategy until configured otherwise.
    pub fn new(name: String, type_id: TypeId, screen_id: ScreenId, tick: Tick) -> (r: Self)
        ensures
            r@ == new_info(name@, type_id, screen_id, tick),
    {
        ScreenInfo {
            name,
            state: ScreenState::Unloaded,
            type_id,
            needs_update: true,
            skip_load: true,
            skip_unload: true,
            load_strategy: LoadStrategy::Blocking,
            changed_at: tick,
            initialized: false,
            screen_id,
        }
    }

    fn change_to(&mut self, state: ScreenState, tick: Tick)
        ensures
            final(self)@ == changed_to(old(self)@, state, tick),
    {
        self.state = state;
        self.needs_update = true;
        self.changed_at = tick;
    }

    fn settle(&mut self, tick: Tick)
        ensures
            final(self)@ == settled(old(self)@, tick),
    {
        self.needs_update = false;
        self.changed_at = tick;
    }

    /// Loads the screen: to `Ready` when loading is skipped, else to `Loading`.
    /// Has no effect unless the screen is `Unloaded`, `Unloading` or `LoadQueued`.
    pub fn load(&mut self, tick: Tick)
        ensures
            final(self)@ == load_result(old(self)@, tick),
    {
        match self.state {
            ScreenState::Unloaded | ScreenState::Unloading | ScreenState::LoadQueued => {
                if self.skip_load {
                    self.change_to(ScreenState::Ready, tick);
                } else {
                    self.change_to(ScreenState::Loading, tick);
                }
            },
            _ => {},
        }
    }

    /// Unloads the screen: a loading or ready screen goes to `Cleanup` when
    /// unloading is skipped, else to `Unloading`; a screen still waiting to load
    /// goes back to `Unloaded`. Has no effect if the screen is already
    /// `Unloading`, `Cleanup` or `Unloaded`.
    pub fn unload(&mut self, tick: Tick)
        ensures
            final(self)@ == unload_result(old(self)@, tick),
    {
        match self.state {
            ScreenState::Loading | ScreenState::Ready => {
                if self.skip_unload {
                    self.change_to(ScreenState::Cleanup, tick);
                } else {
                    self.change_to(ScreenState::Unloading, tick);
                }
            },
            ScreenState::LoadQueued => {
                self.change_to(ScreenState::Unloaded, tick);
            },
            _ => {},
        }
    }

    /// Queues the screen to load, to start once every other screen's cleanup is
    /// complete. Only works in the `Unloaded` state.
    pub fn queue_load(&mut self, tick: Tick)
        ensures
            final(self)@ == queue_load_result(old(self)@, tick),
    {
        if self.state == ScreenState::Unloaded {
            self.change_to(ScreenState::LoadQueued, tick);
        }
    }

    /// Finishes loading the screen. Has no effect unless the screen is `Loading`.
    pub fn finish_loading(&mut self, tick: Tick)
        ensures
            final(self)@ == finish_loading_result(old(self)@, tick),
    {
        if self.state == ScreenState::Loading {
            self.change_to(ScreenState::Ready, tick);
        }
    }

    /// Finishes unloading the screen. Has no effect unless the screen is `Unloading`.
    pub fn finish_unloading(&mut self, tick: Tick)
        ensures
            final(self)@ == finish_unloading_result(old(self)@, tick),
    {
        if self.state == ScreenState::Unloading {
            self.change_to(ScreenState::Cleanup, tick);
        }
    }

    /// Finishes the cleanup of the screen. Has no effect unless the screen is `Cleanup`.
    pub fn finish_cleanup(&mut self, tick: Tick)
        ensures
            final(self)@ == finish_cleanup_result(old(self)@, tick),
    {
        if self.state == ScreenState::Cleanup {
            self.change_to(ScreenState::Unloaded, tick);
        }
    }

    /// Runs one `Update` frame for this screen: returns the schedules to run, in
    /// order, and announces the pending change. `all_clear` tells whether every
    /// screen is `Unloaded` or `LoadQueued`; a queued screen loads only then.
    pub fn update_schedules(&mut self, all_clear: bool, tick: Tick) -> (r: Vec<ScreenRun>)
        ensures
            runs_view(r@) == frame_runs(old(self)@),
            final(self)@ == frame_result(old(self)@, all_clear, tick),
    {
        let mut runs: Vec<ScreenRun> = Vec::new();
        let type_id = self.type_id;
        match self.state {
            ScreenState::Unloaded => {
                if !self.initialized {
                    self.initialized = true;
                    self.settle(tick);
                }
                if self.needs_update {
                    runs.push(ScreenRun::Unloaded(OnScreenUnloaded(type_id)));
                    self.settle(tick);
                }
            },
            ScreenState::LoadQueued => {
                if self.needs_update {
                    runs.push(ScreenRun::LoadQueued(OnScreenLoadQueued(type_id)));
                    self.settle(tick);
                }
                if all_clear {
                    self.load(tick);
                }
            },
            ScreenState::Loading => {
                runs.push(ScreenRun::Scoped(ScreenScheduleLabel::from_id(ScreenSchedule::Loading, type_id)));
                if self.needs_update {
                    runs.push(ScreenRun::Load(OnScreenLoad(type_id)));
                    self.settle(tick);
                }
                if self.load_strategy == LoadStrategy::Nonblocking {
                    runs.push(ScreenRun::Scoped(ScreenScheduleLabel::from_id(ScreenSchedule::Update, type_id)));
                }
            },
            ScreenState::Ready => {
                runs.push(ScreenRun::Scoped(ScreenScheduleLabel::from_id(ScreenSchedule::Update, type_id)));
                if self.needs_update {
                    runs.push(ScreenRun::Ready(OnScreenReady(type_id)));
                    self.settle(tick);
                }
            },
            ScreenState::Unloading => {
                runs.push(ScreenRun::Scoped(ScreenScheduleLabel::from_id(ScreenSchedule::Unloading, type_id)));
                if self.needs_update {
                    runs.push(ScreenRun::Unload(OnScreenUnload(type_id)));
                    self.settle(tick);
                }
            },
            ScreenState::Cleanup => {
                if self.needs_update {
                    runs.push(ScreenRun::Cleanup(OnScreenCleanup(type_id)));
                    self.settle(tick);
                }
            },
        }
        proof {
            assert(runs_view(runs@) =~= frame_runs(old(self)@));
        }
        runs
    }

    /// The schedules that one `FixedUpdate` frame runs for this screen.
    pub fn fixed_schedules(&self) -> (r: Vec<ScreenRun>)
        ensures
            runs_view(r@) == fixed_runs(self@),
    {
        let mut runs: Vec<ScreenRun> = Vec::new();
        let runs_fixed = match self.state {
            ScreenState::Loading => self.load_strategy == LoadStrategy::Nonblocking,
            ScreenState::Ready => true,
            _ => false,
        };
        if runs_fixed {
            runs.push(ScreenRun::Scoped(ScreenScheduleLabel::from_id(ScreenSchedule::FixedUpdate, self.type_id)));
        }
        proof {
            assert(runs_view(runs@) =~= fixed_runs(self@));
        }
        runs
    }

    /// How the screen's main schedules behave while loading.
    pub fn load_strategy(&self) -> (r: LoadStrategy)
        ensures
            r == self@.load_strategy,
    {
        self.load_strategy
    }

    /// Whether loading goes directly to `Ready`.
    pub fn skip_load(&self) -> (r: bool)
        ensures
            r == self@.skip_load,
    {
        self.skip_load
    }

    /// Whether unloading goes directly to `Cleanup`.
    pub fn skip_unload(&self) -> (r: bool)
        ensures
            r == self@.skip_unload,
    {
        self.skip_unload
    }

    /// Sets whether unloading goes directly to `Cleanup`.
    pub fn set_skip_unload(&mut self, skip_unload: bool)
        ensures
            final(self)@ == (ScreenInfoView { skip_unload, ..old(self)@ }),
    {
        self.skip_unload = skip_unload;
    }

    /// Sets whether loading goes directly to `Ready`.
    pub fn set_skip_load(&mut self, skip_load: bool)
        ensures
            final(self)@ == (ScreenInfoView { skip_load, ..old(self)@ }),
    {
        self.skip_load = skip_load;
    }

    /// Sets how the screen's main schedules behave while loading.
    pub fn set_load_strategy(&mut self, load_strategy: LoadStrategy)
        ensures
            final(self)@ == (ScreenInfoView { load_strategy, ..old(self)@ }),
    {
        self.load_strategy = load_strategy;
    }

    /// Whether a frame has seen the screen yet.
    pub fn initialized(&self) -> (r: bool)
        ensures
            r == self@.initialized,
    {
        self.initialized
    }

    /// Tick of the last change.
    pub fn changed_at(&self) -> (r: Tick)
        ensures
            r == self@.changed_at,
    {
        self.changed_at
    }

    /// Whether a state change is still to be announced.
    pub fn needs_update(&self) -> (r: bool)
        ensures
            r == self@.needs_update,
    {
        self.needs_update
    }

    /// Id of the screen's type.
    pub fn type_id(&self) -> (r: TypeId)
        ensures
            r == self@.type_id,
    {
        self.type_id
    }

    /// Where the screen is in its lifecycle.
    pub fn state(&self) -> (r: ScreenState)
        ensures
            r == self@.state,
    {
        self.state
    }

    /// Name of the screen.
    pub fn name(&self) -> (r: &str)
        ensures
            r@ == self@.name,
    {
        self.name.as_str()
    }

    /// Whether the screen is in state `state`.
    pub fn has_state(&self, state: ScreenState) -> (r: bool)
        ensures
            r == (self@.state == state),
    {
        self.state == state
    }

    /// Whether the screen is named `name`.
    pub fn name_is(&self, name: &String) -> (r: bool)
        ensures
            r == (self@.name == name@),
    {
        self.name == *name
    }

    /// Index of the screen in `ScreenData`.
    pub fn screen_id(&self) -> (r: ScreenId)
        ensures
            r == self@.screen_id,
    {
        self.screen_id
    }
}

} // verus!

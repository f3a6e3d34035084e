//! The states, strategies and schedule kinds of a screen.
use vstd::prelude::*;

verus! {

/// Describes the current state of a screen. Not an actual bevy `State`.
#[derive(Debug, Clone, Copy, PartialEq, Eq, Structural, Hash)]
pub enum ScreenState {
    /// The screen is currently down.
    Unloaded,
    /// The screen is waiting for cleanup to finish.
    LoadQueued,
    /// The screen is running any custom load systems.
    Loading,
    /// The screen is fully loaded and ready to execute its main systems.
    Ready,
    /// The screen is running any custom unload systems.
    Unloading,
    /// For internal use. Cleaning up screen-scoped entities.
    Cleanup,
}

impl Default for ScreenState {
    fn default() -> (r: Self)
        ensures
            r == ScreenState::Unloaded,
    {
        ScreenState::Unloaded
    }
}

/// Whether a screen's `Update` and `FixedUpdate` schedules run while it is
/// still loading.
#[derive(Debug, Clone, Copy, PartialEq, Eq, Structural, Hash)]
pub enum LoadStrategy {
    /// The main schedules wait until the screen is `Ready`.
    Blocking,
    /// The main schedules also run while the screen is `Loading`.
    Nonblocking,
}

impl Default for LoadStrategy {
    fn default() -> (r: Self)
        ensures
            r == LoadStrategy::Blocking,
    {
        LoadStrategy::Blocking
    }
}

/// Describes a screen's schedule. All systems added to this schedule are scoped
/// to this screen's lifetime.
#[derive(Debug, Clone, Copy, PartialEq, Eq, Structural, Hash)]
pub enum ScreenSchedule {
    /// Runs on `Update` when the screen is `Ready`.
    Update,
    /// Runs on `FixedUpdate` when the screen is `Ready`.
    FixedUpdate,
    /// Runs on `Update` when the screen is `Loading`.
    Loading,
    /// Runs on `Update` when the screen is `Unloading`.
    Unloading,
    /// Runs after `Unloading`; cleans up screen-scoped entities.
    Cleanup,
    /// Runs when the screen begins to load.
    OnLoad,
    /// Runs when the screen becomes ready.
    OnReady,
    /// Runs when the screen begins to unload.
    OnUnload,
    /// Runs when the screen has finished unloading.
    OnUnloaded,
}

/// Every schedule kind, in declaration order.
pub open spec fn all_screen_schedules() -> Seq<ScreenSchedule> {
    seq![
        ScreenSchedule::Update,
        ScreenSchedule::FixedUpdate,
        ScreenSchedule::Loading,
        ScreenSchedule::Unloading,
        ScreenSchedule::Cleanup,
        ScreenSchedule::OnLoad,
        ScreenSchedule::OnReady,
        ScreenSchedule::OnUnload,
        ScreenSchedule::OnUnloaded,
    ]
}

impl ScreenSchedule {
    /// Every schedule kind, in declaration order.
    pub fn all() -> (r: Vec<ScreenSchedule>)
        ensures
            r@ == all_screen_schedules(),
    {
        vec![
            ScreenSchedule::Update,
            ScreenSchedule::FixedUpdate,
            ScreenSchedule::Loading,
            ScreenSchedule::Unloading,
            ScreenSchedule::Cleanup,
            ScreenSchedule::OnLoad,
            ScreenSchedule::OnReady,
            ScreenSchedule::OnUnload,
            ScreenSchedule::OnUnloaded,
        ]
    }
}

} // verus!

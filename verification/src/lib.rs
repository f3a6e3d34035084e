//! Screen management for bevy: each registered screen moves through a load and
//! unload lifecycle, one screen at a time is current, and screen-scoped
//! schedules run according to each screen's state.
mod outside;
pub mod state;
pub mod ids;
pub mod labels;
pub mod info;
pub mod data;
pub mod params;
pub mod systems;
pub mod scope;
pub mod laws;

pub use state::{ScreenState, LoadStrategy, ScreenSchedule};
pub use ids::{
    ScreenId, ScreenIds, ScreenError, CurrentScreen, InitialScreen, SwitchToScreen,
    switch_to_screen, SwitchToScreenMsg, ScreenChanged, FinishLoading, finish_loading,
    FinishUnloading, finish_unloading, ScreenScoped, Persistent,
};
pub use labels::{
    ScreenScheduleLabel, OnScreenLoad, OnScreenCleanup, OnScreenLoadQueued, OnScreenReady,
    OnScreenUnload, OnScreenUnloaded, ScreenRun, transition_run,
};
pub use info::{ScreenInfo, ScreenInfoView};
pub use data::{ScreenData, ScreenRegistry};
pub use params::{Screens, ScreensMut, ScreenIdFor};
pub use systems::{handle_switch_msg, run_schedules, run_fixed_schedules, initial_screen, on_switch_screen};
pub use scope::{ScopeSettings, resolve_skip, register_screen, is_screen_scoped, clean_up_scoped_entities};

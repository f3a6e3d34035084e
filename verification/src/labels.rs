//! Labels of the schedules that a screen runs, and the record of one run.
use std::any::TypeId;
use vstd::prelude::*;

use crate::outside::type_id_of;
use crate::state::ScreenSchedule;

verus! {

/// A screen's `ScreenSchedule`, made unique per screen type by the type's id.
#[derive(Debug, Clone, Copy, PartialEq, Eq, Hash)]
pub struct ScreenScheduleLabel {
    id: TypeId,
    kind: ScreenSchedule,
}

impl View for ScreenScheduleLabel {
    /// The schedule kind and the screen type's id.
    type V = (ScreenSchedule, TypeId);

    closed spec fn view(&self) -> (ScreenSchedule, TypeId) {
        (self.kind, self.id)
    }
}

/// Two labels with the same kind and type id are the same label.
pub proof fn lemma_label_view_eq(a: ScreenScheduleLabel, b: ScreenScheduleLabel)
    requires
        a@ == b@,
    ensures
        a == b,
{
}

impl ScreenScheduleLabel {
    /// The label of schedule `kind` for screen type `S`.
    pub fn new<S: ?Sized + 'static>(kind: ScreenSchedule) -> (r: Self)
        ensures
            r@.0 == kind,
    {
        ScreenScheduleLabel { id: type_id_of::<S>(), kind }
    }

    /// The label of schedule `kind` for the screen type with id `id`.
    pub fn from_id(kind: ScreenSchedule, id: TypeId) -> (r: Self)
        ensures
            r@ == (kind, id),
    {
        ScreenScheduleLabel { id, kind }
    }

    /// The screen type's id.
    pub fn id(&self) -> (r: TypeId)
        ensures
            r == self@.1,
    {
        self.id
    }

    /// The schedule kind.
    pub fn kind(&self) -> (r: ScreenSchedule)
        ensures
            r == self@.0,
    {
        self.kind
    }
}

/// Label of a schedule which fires when the screen has begun to load.
#[derive(Debug, Clone, Copy, PartialEq, Eq, Hash)]
pub struct OnScreenLoad(pub TypeId);

/// Label of a schedule which fires when the screen has begun its cleanup.
#[derive(Debug, Clone, Copy, PartialEq, Eq, Hash)]
pub struct OnScreenCleanup(pub TypeId);

/// Label of a schedule which fires when the screen is waiting to load.
#[derive(Debug, Clone, Copy, PartialEq, Eq, Hash)]
pub struct OnScreenLoadQueued(pub TypeId);

/// Label of a schedule which fires when the screen has finished loading.
#[derive(Debug, Clone, Copy, PartialEq, Eq, Hash)]
pub struct OnScreenReady(pub TypeId);

/// Label of a schedule which fires when the screen is beginning to unload.
#[derive(Debug, Clone, Copy, PartialEq, Eq, Hash)]
pub struct OnScreenUnload(pub TypeId);

/// Label of a schedule which fires when the screen has finished unloading and
/// is no longer active.
#[derive(Debug, Clone, Copy, PartialEq, Eq, Hash)]
pub struct OnScreenUnloaded(pub TypeId);

/// One schedule that a frame asks to run.
#[derive(Debug, Clone, Copy)]
pub enum ScreenRun {
    /// A scoped schedule of the screen (`Update`, `FixedUpdate`, `Loading`, `Unloading`).
    Scoped(ScreenScheduleLabel),
    /// The screen began waiting to load.
    LoadQueued(OnScreenLoadQueued),
    /// The screen began loading.
    Load(OnScreenLoad),
    /// The screen became ready.
    Ready(OnScreenReady),
    /// The screen began unloading.
    Unload(OnScreenUnload),
    /// The screen began its cleanup.
    Cleanup(OnScreenCleanup),
    /// The screen finished unloading.
    Unloaded(OnScreenUnloaded),
}

/// What a `ScreenRun` asks for: the schedule, by kind and screen type id.
pub enum ScreenRunView {
    Scoped(ScreenSchedule, TypeId),
    LoadQueued(TypeId),
    Load(TypeId),
    Ready(TypeId),
    Unload(TypeId),
    Cleanup(TypeId),
    Unloaded(TypeId),
}

impl View for ScreenRun {
    type V = ScreenRunView;

    open spec fn view(&self) -> ScreenRunView {
        match *self {
            ScreenRun::Scoped(l) => ScreenRunView::Scoped(l@.0, l@.1),
            ScreenRun::LoadQueued(l) => ScreenRunView::LoadQueued(l.0),
            ScreenRun::Load(l) => ScreenRunView::Load(l.0),
            ScreenRun::Ready(l) => ScreenRunView::Ready(l.0),
            ScreenRun::Unload(l) => ScreenRunView::Unload(l.0),
            ScreenRun::Cleanup(l) => ScreenRunView::Cleanup(l.0),
            ScreenRun::Unloaded(l) => ScreenRunView::Unloaded(l.0),
        }
    }
}

/// The views of a sequence of runs.
pub open spec fn runs_view(s: Seq<ScreenRun>) -> Seq<ScreenRunView> {
    s.map_values(|r: ScreenRun| r@)
}

} // verus!

verus! {

/// The schedule that a builder's transition kind hangs on: `OnLoad` on the
/// load announcement, `OnReady` on the ready one, `OnUnload` on the unload one,
/// `OnUnloaded` on the unloaded one; the other kinds run every frame instead.
pub open spec fn transition_of(kind: ScreenSchedule, type_id: TypeId) -> Option<ScreenRunView> {
    match kind {
        ScreenSchedule::OnLoad => Some(ScreenRunView::Load(type_id)),
        ScreenSchedule::OnReady => Some(ScreenRunView::Ready(type_id)),
        ScreenSchedule::OnUnload => Some(ScreenRunView::Unload(type_id)),
        ScreenSchedule::OnUnloaded => Some(ScreenRunView::Unloaded(type_id)),
        _ => None,
    }
}

/// The announcement run on which schedule `kind` of the screen type `type_id`
/// runs, for the transition kinds; `None` for the kinds that run every frame.
pub fn transition_run(kind: ScreenSchedule, type_id: TypeId) -> (r: Option<ScreenRun>)
    ensures
        match r {
            Some(run) => transition_of(kind, type_id) == Some(run@),
            None => transition_of(kind, type_id) is None,
        },
{
    match kind {
        ScreenSchedule::OnLoad => Some(ScreenRun::Load(OnScreenLoad(type_id))),
        ScreenSchedule::OnReady => Some(ScreenRun::Ready(OnScreenReady(type_id))),
        ScreenSchedule::OnUnload => Some(ScreenRun::Unload(OnScreenUnload(type_id))),
        ScreenSchedule::OnUnloaded => Some(ScreenRun::Unloaded(OnScreenUnloaded(type_id))),
        _ => None,
    }
}

} // verus!

//! Screen identifiers, the current and initial screen, errors and events.
use std::marker::PhantomData;
use vstd::prelude::*;

verus! {

/// The screen's ID: its index in `ScreenData`.
#[derive(Clone, Copy, Debug, PartialEq, Eq, Structural)]
pub struct ScreenId(pub(crate) usize);

impl View for ScreenId {
    type V = usize;

    closed spec fn view(&self) -> usize {
        self.0
    }
}

/// Two ids with the same index are the same id.
pub proof fn lemma_screen_id_view_eq(a: ScreenId, b: ScreenId)
    requires
        a@ == b@,
    ensures
        a == b,
{
}

impl ScreenId {
    /// The id of the screen at `index`.
    pub(crate) fn from_index(index: usize) -> (r: ScreenId)
        ensures
            r@ == index,
    {
        ScreenId(index)
    }

    /// The index of this screen in `ScreenData`.
    pub fn index(&self) -> (r: usize)
        ensures
            r == self@,
    {
        self.0
    }
}

/// Generates `ScreenId`s, counting up from zero.
#[derive(Debug)]
pub struct ScreenIds {
    next: usize,
}

impl View for ScreenIds {
    type V = usize;

    /// The index that the next call of `next` hands out.
    closed spec fn view(&self) -> usize {
        self.next
    }
}

/// The counter after one id is handed out at count `c`: one more, wrapping
/// around at the maximum.
pub open spec fn next_count(c: usize) -> usize {
    if c == usize::MAX { 0 } else { (c + 1) as usize }
}

/// The counter after `k` ids are handed out from count `c`.
pub open spec fn count_after(c: usize, k: nat) -> usize
    decreases k,
{
    if k == 0 { c } else { next_count(count_after(c, (k - 1) as nat)) }
}

/// The indices of the `k` ids handed out from count `c`, in order.
pub open spec fn handed_out(c: usize, k: nat) -> Seq<usize>
    decreases k,
{
    if k == 0 { Seq::empty() } else { handed_out(c, (k - 1) as nat).push(count_after(c, (k - 1) as nat)) }
}

/// Counting up from zero, `k` calls of `next` (fewer than the counter's range)
/// hand out the indices `0, 1, ..., k - 1` in order, all distinct, and leave the
/// counter at `k`, so the next call hands out `k`.
pub proof fn lemma_ids_count_up(k: nat)
    requires
        k <= usize::MAX,
    ensures
        count_after(0, k) == k,
        handed_out(0, k) == Seq::new(k, |i: int| i as usize),
        forall|i: int, j: int| 0 <= i < j < k ==> handed_out(0, k)[i] < handed_out(0, k)[j],
    decreases k,
{
    if k > 0 {
        lemma_ids_count_up((k - 1) as nat);
        assert(handed_out(0, k) =~= Seq::new(k, |i: int| i as usize));
    }
}

impl Default for ScreenIds {
    fn default() -> (r: Self)
        ensures
            r@ == 0,
    {
        ScreenIds { next: 0 }
    }
}

impl ScreenIds {
    /// The index that the next call of `next` hands out.
    pub fn peek(&self) -> (r: usize)
        ensures
            r == self@,
    {
        self.next
    }

    /// Hands out the next id; the counter wraps around as an atomic `fetch_add` does.
    pub fn next(&mut self) -> (r: ScreenId)
        ensures
            r@ == old(self)@,
            final(self)@ == next_count(old(self)@),
    {
        let id = ScreenId(self.next);
        self.next = self.next.wrapping_add(1);
        id
    }
}

/// Errors of screen lookups.
#[derive(Debug)]
pub enum ScreenError {
    /// Could not find the screen with this name (or type). Did you register it?
    NoSuchScreen(String),
    /// Could not find the screen with this id.
    NoSuchScreenId(ScreenId),
}

/// The current screen's ID.
#[derive(Debug)]
pub struct CurrentScreen(pub(crate) Option<ScreenId>);

impl View for CurrentScreen {
    type V = Option<ScreenId>;

    closed spec fn view(&self) -> Option<ScreenId> {
        self.0
    }
}

impl Default for CurrentScreen {
    fn default() -> (r: Self)
        ensures
            r@ == None::<ScreenId>,
    {
        CurrentScreen(None)
    }
}

impl CurrentScreen {
    /// Gets the `ScreenId` of the current screen. This is populated once any
    /// screen has been switched to.
    pub fn get_id(&self) -> (r: Option<ScreenId>)
        ensures
            r == self@,
    {
        self.0
    }

    /// Makes `id` the current screen.
    pub fn set(&mut self, id: Option<ScreenId>)
        ensures
            final(self)@ == id,
    {
        self.0 = id;
    }
}

/// The first screen. Typically this will be a splash screen, a loading screen,
/// or a main menu.
#[derive(Debug)]
pub struct InitialScreen(Option<String>);

impl View for InitialScreen {
    type V = Option<Seq<char>>;

    closed spec fn view(&self) -> Option<Seq<char>> {
        match self.0 {
            Some(s) => Some(s@),
            None => None,
        }
    }
}

impl Default for InitialScreen {
    fn default() -> (r: Self)
        ensures
            r@ == None::<Seq<char>>,
    {
        InitialScreen(None)
    }
}

impl InitialScreen {
    /// The initial screen, by the name that its `Screen` implementation gives.
    pub fn from_name(name: String) -> (r: Self)
        ensures
            r@ == Some(name@),
    {
        InitialScreen(Some(name))
    }

    /// The name of the initial screen, if one was set.
    pub fn name(&self) -> (r: Option<&String>)
        ensures
            match r {
                Some(s) => self@ == Some(s@),
                None => self@ == None::<Seq<char>>,
            },
    {
        match &self.0 {
            Some(s) => Some(s),
            None => None,
        }
    }
}

/// Call this when you want to switch screens: it leads to a `SwitchToScreenMsg`
/// with the screen's id.
#[derive(Debug)]
pub struct SwitchToScreen<S>(PhantomData<S>);

/// See `SwitchToScreen`.
pub fn switch_to_screen<S>() -> SwitchToScreen<S> {
    SwitchToScreen(PhantomData)
}

/// Switches to the screen with the given id. Only the last valid message of a
/// frame is read.
#[derive(Debug, Clone, Copy, PartialEq, Eq, Structural)]
pub struct SwitchToScreenMsg(pub ScreenId);

/// Signals that the current screen has changed.
#[derive(Debug, Clone, Copy, PartialEq, Eq, Structural)]
pub struct ScreenChanged {
    /// The screen that was current before, if any.
    pub from: Option<ScreenId>,
    /// The screen that is current now.
    pub to: ScreenId,
}

/// Causes the given screen to finish loading. Has no effect if the screen is
/// not currently loading.
#[derive(Debug)]
pub struct FinishLoading<S>(PhantomData<S>);

/// See `FinishLoading`.
pub fn finish_loading<S>() -> FinishLoading<S> {
    FinishLoading(PhantomData)
}

/// Causes the given screen to finish unloading. Has no effect if the screen is
/// not currently unloading.
#[derive(Debug)]
pub struct FinishUnloading<S>(PhantomData<S>);

/// See `FinishUnloading`.
pub fn finish_unloading<S>() -> FinishUnloading<S> {
    FinishUnloading(PhantomData)
}

/// Scopes an entity to the current screen: the entity is cleaned up when the
/// screen is unloaded, even where it would otherwise persist.
#[derive(Debug, Clone, Copy, Default, PartialEq, Eq, Structural)]
pub struct ScreenScoped;

/// Marks an entity as screen-persistent: it is not cleaned up when the screen
/// changes.
#[derive(Debug, Clone, Copy, Default, PartialEq, Eq, Structural)]
pub struct Persistent;

} // verus!

//! Read and write access to all screens at once, and the id of one screen type.
use std::any::TypeId;
use std::marker::PhantomData;
use vstd::prelude::*;

use crate::data::{first_named, has_screen, named_at, ScreenData, ScreenRegistry};
use crate::ids::{ScreenError, ScreenId};
use crate::info::{ScreenInfo, ScreenInfoView};
use crate::outside::type_id_debug;

verus! {

/// What a lookup by type finds: `Ok` with the screen's index where the type is
/// registered and the store holds its screen; else the error that says which
/// of the two failed.
pub open spec fn found_by_type(
    reg: Map<TypeId, ScreenId>,
    d: Seq<Option<ScreenInfoView>>,
    t: TypeId,
    r: Result<ScreenInfoView, ScreenError>,
) -> bool {
    if reg.contains_key(t) {
        if has_screen(d, reg[t]) {
            r == Ok::<ScreenInfoView, ScreenError>(d[reg[t]@ as int]->Some_0)
        } else {
            r == Err::<ScreenInfoView, ScreenError>(ScreenError::NoSuchScreenId(reg[t]))
        }
    } else {
        r matches Err(ScreenError::NoSuchScreen(s)) && s@ == type_id_debug(t)
    }
}

/// What a lookup by name finds: the first screen with that name, or a
/// `NoSuchScreen` error that carries the name where no screen has it.
pub open spec fn found_by_name(
    d: Seq<Option<ScreenInfoView>>,
    name: Seq<char>,
    r: Result<ScreenInfoView, ScreenError>,
) -> bool {
    match r {
        Ok(v) => exists|i: int| #[trigger] first_named(d, name, i) && d[i] == Some(v),
        Err(e) => {
            &&& forall|j: int| !#[trigger] named_at(d, name, j)
            &&& e matches ScreenError::NoSuchScreen(s) && s@ == name
        },
    }
}

/// The view of a lookup result.
pub open spec fn result_view(r: Result<&ScreenInfo, ScreenError>) -> Result<ScreenInfoView, ScreenError> {
    match r {
        Ok(i) => Ok(i@),
        Err(e) => Err(e),
    }
}

/// The view of a mutable lookup result, before any change through it.
pub open spec fn result_mut_view(r: Result<&mut ScreenInfo, ScreenError>) -> Result<ScreenInfoView, ScreenError> {
    match r {
        Ok(i) => Ok(i@),
        Err(e) => Err(e),
    }
}

fn get_in<'a>(data: &'a ScreenData, name: &str) -> (r: Result<&'a ScreenInfo, ScreenError>)
    ensures
        found_by_name(data@, name@, result_view(r)),
{
    let owned = name.to_owned();
    match data.id_by_name(&owned) {
        Some(id) => {
            match data.get(id) {
                Ok(info) => Ok(info),
                Err(e) => Err(e),
            }
        },
        None => Err(ScreenError::NoSuchScreen(owned)),
    }
}

fn get_by_type_in<'a>(registry: &ScreenRegistry, data: &'a ScreenData, id: &TypeId) -> (r: Result<&'a ScreenInfo, ScreenError>)
    ensures
        found_by_type(registry@, data@, *id, result_view(r)),
{
    match registry.get(id) {
        Ok(sid) => data.get(sid),
        Err(e) => Err(e),
    }
}

/// Read access to all screens: the registry and the screen data.
pub struct Screens<'w> {
    registry: &'w ScreenRegistry,
    data: &'w ScreenData,
}

impl<'w> View for Screens<'w> {
    type V = (Map<TypeId, ScreenId>, Seq<Option<ScreenInfoView>>);

    closed spec fn view(&self) -> (Map<TypeId, ScreenId>, Seq<Option<ScreenInfoView>>) {
        (self.registry@, self.data@)
    }
}

impl<'w> Screens<'w> {
    /// Read access over `registry` and `data`.
    pub fn new(registry: &'w ScreenRegistry, data: &'w ScreenData) -> (r: Self)
        ensures
            r@ == (registry@, data@),
    {
        Screens { registry, data }
    }

    /// The `ScreenInfo` of the first screen with a matching name. Names need not be unique.
    pub fn get_by_name(&self, name: &str) -> (r: Result<&'w ScreenInfo, ScreenError>)
        ensures
            found_by_name(self@.1, name@, result_view(r)),
    {
        get_in(self.data, name)
    }

    /// The `ScreenInfo` of the screen type with id `id`.
    pub fn get_by_type_id(&self, id: &TypeId) -> (r: Result<&'w ScreenInfo, ScreenError>)
        ensures
            found_by_type(self@.0, self@.1, *id, result_view(r)),
    {
        get_by_type_in(self.registry, self.data, id)
    }

    /// The `ScreenInfo` of the screen with id `id`.
    pub fn get_by_id(&self, id: ScreenId) -> (r: Result<&'w ScreenInfo, ScreenError>)
        ensures
            match r {
                Ok(info) => has_screen(self@.1, id) && self@.1[id@ as int] == Some(info@),
                Err(e) => !has_screen(self@.1, id) && e == ScreenError::NoSuchScreenId(id),
            },
    {
        self.data.get(id)
    }
}

/// Mutable access to all screens: the registry and the screen data.
pub struct ScreensMut<'w> {
    registry: &'w mut ScreenRegistry,
    data: &'w mut ScreenData,
}

impl<'w> View for ScreensMut<'w> {
    type V = (Map<TypeId, ScreenId>, Seq<Option<ScreenInfoView>>);

    closed spec fn view(&self) -> (Map<TypeId, ScreenId>, Seq<Option<ScreenInfoView>>) {
        ((*self.registry)@, (*self.data)@)
    }
}

impl<'w> ScreensMut<'w> {
    /// Mutable access over `registry` and `data`.
    pub fn new(registry: &'w mut ScreenRegistry, data: &'w mut ScreenData) -> (r: Self)
        ensures
            r@ == (old(registry)@, old(data)@),
    {
        ScreensMut { registry, data }
    }

    /// The `ScreenInfo` of the first screen with a matching name. Names need not be unique.
    pub fn get_by_name(&self, name: &str) -> (r: Result<&ScreenInfo, ScreenError>)
        ensures
            found_by_name(self@.1, name@, result_view(r)),
    {
        get_in(self.data, name)
    }

    /// The `ScreenInfo` of the screen type with id `id`.
    pub fn get_by_type_id(&self, id: &TypeId) -> (r: Result<&ScreenInfo, ScreenError>)
        ensures
            found_by_type(self@.0, self@.1, *id, result_view(r)),
    {
        get_by_type_in(self.registry, self.data, id)
    }

    /// The `ScreenInfo` of the screen with id `id`.
    pub fn get_by_id(&self, id: ScreenId) -> (r: Result<&ScreenInfo, ScreenError>)
        ensures
            match r {
                Ok(info) => has_screen(self@.1, id) && self@.1[id@ as int] == Some(info@),
                Err(e) => !has_screen(self@.1, id) && e == ScreenError::NoSuchScreenId(id),
            },
    {
        self.data.get(id)
    }

    /// The `ScreenInfo` of the screen with id `id`, to change in place.
    pub fn get_by_id_mut(&mut self, id: ScreenId) -> (r: Result<&mut ScreenInfo, ScreenError>)
        ensures
            match r {
                Ok(info) => has_screen(old(self)@.1, id) && old(self)@.1[id@ as int] == Some(info@)
                    && final(self)@ == (old(self)@.0, old(self)@.1.update(id@ as int, Some(final(info)@))),
                Err(e) => !has_screen(old(self)@.1, id) && e == ScreenError::NoSuchScreenId(id)
                    && final(self)@ == old(self)@,
            },
    {
        self.data.get_mut(id)
    }

    /// The `ScreenInfo` of the first screen with a matching name, to change in place.
    pub fn get_by_name_mut(&mut self, name: &str) -> (r: Result<&mut ScreenInfo, ScreenError>)
        ensures
            found_by_name(old(self)@.1, name@, result_mut_view(r)),
            match r {
                Ok(info) => exists|i: int| #[trigger] first_named(old(self)@.1, name@, i)
                    && final(self)@ == (old(self)@.0, old(self)@.1.update(i, Some(final(info)@))),
                Err(_) => final(self)@ == old(self)@,
            },
    {
        let owned = name.to_owned();
        match self.data.id_by_name(&owned) {
            Some(id) => self.data.get_mut(id),
            None => Err(ScreenError::NoSuchScreen(owned)),
        }
    }

    /// The `ScreenInfo` of the screen type with id `id`, to change in place.
    pub fn get_by_type_id_mut(&mut self, id: &TypeId) -> (r: Result<&mut ScreenInfo, ScreenError>)
        ensures
            found_by_type(old(self)@.0, old(self)@.1, *id, result_mut_view(r)),
            match r {
                Ok(info) => final(self)@ == (old(self)@.0, old(self)@.1.update(
                    old(self)@.0[*id]@ as int, Some(final(info)@))),
                Err(_) => final(self)@ == old(self)@,
            },
    {
        match self.registry.get(id) {
            Ok(sid) => self.data.get_mut(sid),
            Err(e) => Err(e),
        }
    }
}

/// The `ScreenId` of the screen type `S`.
#[derive(Debug)]
pub struct ScreenIdFor<S> {
    id: ScreenId,
    _ghost: PhantomData<S>,
}

impl<S> View for ScreenIdFor<S> {
    type V = ScreenId;

    closed spec fn view(&self) -> ScreenId {
        self.id
    }
}

impl<S> ScreenIdFor<S> {
    /// The id `id`, for screen type `S`.
    pub fn new(id: ScreenId) -> (r: Self)
        ensures
            r@ == id,
    {
        ScreenIdFor { id, _ghost: PhantomData }
    }

    /// The screen's id.
    pub fn id(&self) -> (r: ScreenId)
        ensures
            r == self@,
    {
        self.id
    }
}

} // verus!

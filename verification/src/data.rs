//! The stores of screen data: the per-screen `ScreenInfo`s, indexed by id, and
//! the registry from screen type to id; and the views over both.
use std::any::TypeId;
use bevy::utils::TypeIdMap;
use vstd::prelude::*;

use crate::ids::{ScreenError, ScreenId};
use crate::info::{ScreenInfo, ScreenInfoView};
use crate::outside::{
    type_id_debug, type_id_debug_text, type_id_map_entries, type_id_map_get, type_id_map_insert, type_id_map_new,
};

verus! {

/// The views of a vector of optional screens.
pub open spec fn info_views(s: Seq<Option<ScreenInfo>>) -> Seq<Option<ScreenInfoView>> {
    s.map_values(|o: Option<ScreenInfo>| match o {
        Some(i) => Some(i@),
        None => None,
    })
}

/// The store holds a screen at `id`.
pub open spec fn has_screen(d: Seq<Option<ScreenInfoView>>, id: ScreenId) -> bool {
    id@ < d.len() && d[id@ as int] is Some
}

/// The screens that the store holds, in index order.
pub open spec fn some_infos(d: Seq<Option<ScreenInfoView>>) -> Seq<ScreenInfoView>
    decreases d.len(),
{
    if d.len() == 0 {
        Seq::empty()
    } else {
        some_infos(d.drop_last()) + match d.last() {
            Some(v) => seq![v],
            None => Seq::empty(),
        }
    }
}

/// The indices of the slots that hold a screen, in order.
pub open spec fn some_indices(d: Seq<Option<ScreenInfoView>>) -> Seq<usize>
    decreases d.len(),
{
    if d.len() == 0 {
        Seq::empty()
    } else {
        some_indices(d.drop_last()) + if d.last() is Some {
            seq![(d.len() - 1) as usize]
        } else {
            Seq::empty()
        }
    }
}

/// The store holds a screen named `name` at index `i`.
pub open spec fn named_at(d: Seq<Option<ScreenInfoView>>, name: Seq<char>, i: int) -> bool {
    0 <= i < d.len() && d[i] is Some && d[i]->Some_0.name == name
}

/// Index `i` holds the first screen named `name`.
pub open spec fn first_named(d: Seq<Option<ScreenInfoView>>, name: Seq<char>, i: int) -> bool {
    named_at(d, name, i) && forall|j: int| 0 <= j < i ==> !#[trigger] named_at(d, name, j)
}

/// Efficiently accessible vector of screen data, indexed by `ScreenId`.
#[derive(Debug)]
pub struct ScreenData(pub(crate) Vec<Option<ScreenInfo>>);

impl View for ScreenData {
    type V = Seq<Option<ScreenInfoView>>;

    closed spec fn view(&self) -> Seq<Option<ScreenInfoView>> {
        info_views(self.0@)
    }
}

impl Default for ScreenData {
    fn default() -> (r: Self)
        ensures
            r@ == Seq::<Option<ScreenInfoView>>::empty(),
    {
        let r = ScreenData(Vec::new());
        assert(r@ =~= Seq::<Option<ScreenInfoView>>::empty());
        r
    }
}

impl ScreenData {
    /// The number of slots, registered or not.
    pub fn len(&self) -> (r: usize)
        ensures
            r == self@.len(),
    {
        self.0.len()
    }

    /// The screen with id `id`, or `NoSuchScreenId` where there is none.
    pub fn get(&self, id: ScreenId) -> (r: Result<&ScreenInfo, ScreenError>)
        ensures
            match r {
                Ok(info) => has_screen(self@, id) && self@[id@ as int] == Some(info@),
                Err(e) => !has_screen(self@, id) && e == ScreenError::NoSuchScreenId(id),
            },
    {
        let i = id.index();
        if i < self.0.len() {
            match &self.0[i] {
                Some(info) => Ok(info),
                None => Err(ScreenError::NoSuchScreenId(id)),
            }
        } else {
            Err(ScreenError::NoSuchScreenId(id))
        }
    }

    /// The screen with id `id`, to change in place, or `NoSuchScreenId` where
    /// there is none.
    pub fn get_mut(&mut self, id: ScreenId) -> (r: Result<&mut ScreenInfo, ScreenError>)
        ensures
            match r {
                Ok(info) => has_screen(old(self)@, id) && old(self)@[id@ as int] == Some(info@)
                    && final(self)@ == old(self)@.update(id@ as int, Some(final(info)@)),
                Err(e) => !has_screen(old(self)@, id) && e == ScreenError::NoSuchScreenId(id)
                    && final(self)@ == old(self)@,
            },
    {
        let i = id.index();
        if i < self.0.len() {
            let ghost before = self.0@;
            match &mut self.0[i] {
                Some(info) => {
                    proof {
                        assert(info_views(before.update(i as int, Some(*final(info))))
                            =~= info_views(before).update(i as int, Some(final(info)@)));
                    }
                    Ok(info)
                },
                None => Err(ScreenError::NoSuchScreenId(id)),
            }
        } else {
            Err(ScreenError::NoSuchScreenId(id))
        }
    }

    /// The screens that the store holds, in index order.
    pub fn iter_some(&self) -> (r: Vec<&ScreenInfo>)
        ensures
            r@.map_values(|i: &ScreenInfo| i@) == some_infos(self@),
    {
        let mut r: Vec<&ScreenInfo> = Vec::new();
        let mut k: usize = 0;
        while k < self.0.len()
            invariant
                k <= self.0@.len(),
                r@.map_values(|i: &ScreenInfo| i@) == some_infos(self@.take(k as int)),
            decreases self.0@.len() - k,
        {
            proof {
                assert(self@.take(k + 1).drop_last() =~= self@.take(k as int));
            }
            match &self.0[k] {
                Some(info) => {
                    r.push(info);
                },
                None => {},
            }
            k += 1;
            proof {
                assert(r@.map_values(|i: &ScreenInfo| i@) =~= some_infos(self@.take(k as int)));
            }
        }
        proof {
            assert(self@.take(k as int) =~= self@);
        }
        r
    }

    /// The ids of the screens that the store holds, in index order: each can be
    /// changed in place through `get_mut`.
    pub fn some_ids(&self) -> (r: Vec<ScreenId>)
        ensures
            r@.map_values(|id: ScreenId| id@) == some_indices(self@),
    {
        let mut r: Vec<ScreenId> = Vec::new();
        let mut k: usize = 0;
        while k < self.0.len()
            invariant
                k <= self.0@.len(),
                r@.map_values(|id: ScreenId| id@) == some_indices(self@.take(k as int)),
            decreases self.0@.len() - k,
        {
            proof {
                assert(self@.take(k + 1).drop_last() =~= self@.take(k as int));
            }
            match &self.0[k] {
                Some(_) => {
                    r.push(ScreenId::from_index(k));
                },
                None => {},
            }
            k += 1;
            proof {
                assert(r@.map_values(|id: ScreenId| id@) =~= some_indices(self@.take(k as int)));
            }
        }
        proof {
            assert(self@.take(k as int) =~= self@);
        }
        r
    }

    /// The id of the first screen named `name`, if any.
    pub fn id_by_name(&self, name: &String) -> (r: Option<ScreenId>)
        ensures
            match r {
                Some(id) => first_named(self@, name@, id@ as int),
                None => forall|j: int| !#[trigger] named_at(self@, name@, j),
            },
    {
        let mut k: usize = 0;
        while k < self.0.len()
            invariant
                k <= self.0@.len(),
                forall|j: int| 0 <= j < k ==> !#[trigger] named_at(self@, name@, j),
            decreases self.0@.len() - k,
        {
            match &self.0[k] {
                Some(info) => {
                    if info.name_is(name) {
                        return Some(ScreenId::from_index(k));
                    }
                },
                None => {},
            }
            k += 1;
        }
        None
    }
}

/// The screen registry: the `ScreenId` of each registered screen type.
#[derive(Debug)]
pub struct ScreenRegistry(TypeIdMap<ScreenId>);

impl View for ScreenRegistry {
    type V = Map<TypeId, ScreenId>;

    closed spec fn view(&self) -> Map<TypeId, ScreenId> {
        type_id_map_entries(self.0)
    }
}

impl Default for ScreenRegistry {
    fn default() -> (r: Self)
        ensures
            r@ == Map::<TypeId, ScreenId>::empty(),
    {
        ScreenRegistry(type_id_map_new())
    }
}

impl ScreenRegistry {
    /// The id of the screen type `id`, or `NoSuchScreen` where it is not registered.
    pub fn get(&self, id: &TypeId) -> (r: Result<ScreenId, ScreenError>)
        ensures
            match r {
                Ok(sid) => self@.contains_key(*id) && self@[*id] == sid,
                Err(e) => !self@.contains_key(*id)
                    && (e matches ScreenError::NoSuchScreen(s) && s@ == type_id_debug(*id)),
            },
    {
        match type_id_map_get(&self.0, id) {
            Some(sid) => Ok(sid),
            None => Err(ScreenError::NoSuchScreen(type_id_debug_text(id))),
        }
    }

    /// Maps the screen type `type_id` to `screen_id`; returns the id it had before.
    pub fn insert(&mut self, type_id: TypeId, screen_id: ScreenId) -> (r: Option<ScreenId>)
        ensures
            final(self)@ == old(self)@.insert(type_id, screen_id),
            r == (if old(self)@.contains_key(type_id) { Some(old(self)@[type_id]) } else { None }),
    {
        type_id_map_insert(&mut self.0, type_id, screen_id)
    }
}

} // verus!

verus! {

impl ScreenData {
    /// Places `info` at index `id`, dropping the slots from `id` on; the store
    /// then ends with the new screen.
    pub fn insert_screen(&mut self, id: ScreenId, info: ScreenInfo)
        requires
            id@ <= old(self)@.len(),
        ensures
            final(self)@ == old(self)@.take(id@ as int).push(Some(info@)),
    {
        let i = id.index();
        let len = self.0.len();
        let min_size = if i < len { i } else { len };
        let ghost before = self.0@;
        self.0.truncate(min_size);
        self.0.insert(i, Some(info));
        proof {
            assert(self.0@ =~= before.take(i as int).push(Some(info)));
            assert(info_views(before.take(i as int).push(Some(info)))
                =~= info_views(before).take(i as int).push(Some(info@)));
        }
    }
}

} // verus!

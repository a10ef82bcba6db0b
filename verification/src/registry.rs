//! Objects handed to the host application by number (audio players, audio
//! inputs, video players, video inputs): each is created under a fresh id,
//! found again by that id, and destroyed by it. Ids start at 1 and are
//! never reused.

use vstd::prelude::*;
use std::collections::HashMap;
use crate::audio::AudioError;

verus! {

broadcast use vstd::std_specs::hash::group_hash_axioms;

/// Objects by id.
pub struct Registry<T> {
    items: HashMap<u32, T>,
    next_id: u32,
}

/// What a registry holds: the objects by id, and the id the next object
/// gets.
pub struct RegistryView<T> {
    pub items: Map<u32, T>,
    pub next_id: u32,
}

impl<T> View for Registry<T> {
    type V = RegistryView<T>;

    closed spec fn view(&self) -> RegistryView<T> {
        RegistryView { items: self.items@, next_id: self.next_id }
    }
}

/// Every id in use was handed out before the next one: it lies in
/// `1..next_id`.
pub open spec fn ids_below_next<T>(v: RegistryView<T>) -> bool {
    &&& v.next_id >= 1
    &&& forall|k: u32| #[trigger] v.items.contains_key(k) ==> 1 <= k < v.next_id
}

impl<T> Registry<T> {
    #[verifier::type_invariant]
    closed spec fn inv(self) -> bool {
        ids_below_next(self@)
    }

    /// An empty registry; the first id is 1.
    pub fn new() -> (r: Registry<T>)
        ensures
            r@.items == Map::<u32, T>::empty(),
            r@.next_id == 1,
    {
        let r = Registry { items: HashMap::new(), next_id: 1 };
        assert(r@.items =~= Map::<u32, T>::empty());
        r
    }

    fn take_items(&mut self) -> (items: HashMap<u32, T>)
        ensures
            items@ == old(self)@.items,
            final(self)@.next_id == old(self)@.next_id,
            ids_below_next(old(self)@),
    {
        proof {
            use_type_invariant(&*self);
        }
        let mut items: HashMap<u32, T> = HashMap::new();
        std::mem::swap(&mut items, &mut self.items);
        items
    }

    /// Adds `item` under a fresh id and returns the id: the current next
    /// id, which no object holds. The next id then moves on by one.
    pub fn create(&mut self, item: T) -> (id: u32)
        requires
            old(self)@.next_id < u32::MAX,
        ensures
            id == old(self)@.next_id,
            id >= 1,
            !old(self)@.items.contains_key(id),
            final(self)@.items == old(self)@.items.insert(id, item),
            final(self)@.next_id == id + 1,
    {
        let mut items = self.take_items();
        let id = self.next_id;
        items.insert(id, item);
        *self = Registry { items, next_id: id + 1 };
        id
    }

    /// Removes the object with this id, if any.
    pub fn destroy(&mut self, id: u32)
        ensures
            final(self)@.items == old(self)@.items.remove(id),
            final(self)@.next_id == old(self)@.next_id,
    {
        let mut items = self.take_items();
        let next_id = self.next_id;
        items.remove(&id);
        *self = Registry { items, next_id };
    }

    /// The object with this id, if any.
    pub fn get(&self, id: u32) -> (r: Option<&T>)
        ensures
            match r {
                Some(x) => self@.items.contains_key(id) && *x == self@.items[id],
                None => !self@.items.contains_key(id),
            },
    {
        self.items.get(&id)
    }

    /// The id the next object gets.
    pub fn next_id(&self) -> (n: u32)
        ensures
            n == self@.next_id,
    {
        self.next_id
    }

    /// Whether an object has this id.
    pub fn contains(&self, id: u32) -> (b: bool)
        ensures
            b == self@.items.contains_key(id),
    {
        self.items.contains_key(&id)
    }

    /// Takes the object with this id out (to work on it); see
    /// [`Registry::restore`].
    pub fn take(&mut self, id: u32) -> (r: Option<T>)
        ensures
            match r {
                Some(x) => old(self)@.items.contains_key(id) && x == old(self)@.items[id],
                None => !old(self)@.items.contains_key(id),
            },
            final(self)@.items == old(self)@.items.remove(id),
            final(self)@.next_id == old(self)@.next_id,
    {
        let mut items = self.take_items();
        let next_id = self.next_id;
        let r = items.remove(&id);
        *self = Registry { items, next_id };
        r
    }

    /// Puts an object back under an id that was handed out.
    pub fn restore(&mut self, id: u32, item: T)
        requires
            1 <= id < old(self)@.next_id,
        ensures
            final(self)@.items == old(self)@.items.insert(id, item),
            final(self)@.next_id == old(self)@.next_id,
    {
        let mut items = self.take_items();
        let next_id = self.next_id;
        items.insert(id, item);
        *self = Registry { items, next_id };
    }
}

/// An id that `create` hands out is found again until it is destroyed,
/// and is never handed out again.
pub proof fn lemma_created_id_lifecycle<T>(v: RegistryView<T>, item: T, other: u32)
    requires
        ids_below_next(v),
        v.next_id < u32::MAX,
    ensures
        ({
            let id = v.next_id;
            let after = RegistryView { items: v.items.insert(id, item), next_id: (id + 1) as u32 };
            &&& id >= 1
            &&& after.items.contains_key(id)
            &&& after.items[id] == item
            &&& ids_below_next(after)
            &&& other != id ==> after.items.remove(other).contains_key(id)
            &&& !after.items.remove(id).contains_key(id)
            &&& !v.items.contains_key(id)
            &&& after.next_id > id
        }),
{
}

/// The C status of an operation on an object found by id: 0 when it
/// succeeded, -3 when it failed, -2 when no object has the id.
pub open spec fn status_of<E>(outcome: Option<Result<(), E>>) -> i32 {
    match outcome {
        None => -2i32,
        Some(Ok(())) => 0i32,
        Some(Err(_)) => -3i32,
    }
}

/// The C status of an operation on an object found by id (see
/// [`status_of`]).
pub fn status_code<E>(outcome: Option<Result<(), E>>) -> (c: i32)
    ensures
        c == status_of(outcome),
{
    match outcome {
        None => -2,
        Some(Ok(())) => 0,
        Some(Err(_)) => -3,
    }
}

/// The C status of a permission request on an object found by id: 0 when
/// granted, 1 when permission is still needed (it was denied or not yet
/// granted), -3 for any other error (no device, no backend), -2 when no
/// object has the id.
pub open spec fn permission_status_of(outcome: Option<Result<(), AudioError>>) -> i32 {
    match outcome {
        None => -2i32,
        Some(Ok(())) => 0i32,
        Some(Err(AudioError::PermissionDenied)) => 1i32,
        Some(Err(_)) => -3i32,
    }
}

/// The C status of a permission request (see [`permission_status_of`]).
pub fn permission_status(outcome: Option<Result<(), AudioError>>) -> (c: i32)
    ensures
        c == permission_status_of(outcome),
{
    match outcome {
        None => -2,
        Some(Ok(())) => 0,
        Some(Err(AudioError::PermissionDenied)) => 1,
        Some(Err(_)) => -3,
    }
}

} // verus!

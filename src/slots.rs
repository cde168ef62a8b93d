use crate::hasher::Noop;
use std::any::{Any, TypeId};
use std::collections::HashMap;
use std::hash::BuildHasherDefault;
use vstd::prelude::*;

verus! {

/// The identity of a static type, as std hands it out.
#[verifier::external_type_specification]
#[verifier::external_body]
pub struct ExTypeId(TypeId);

/// The identity of `T`: what `TypeId::of::<T>()` returns. Which number that
/// is becomes known only when the program runs.
pub closed spec fn type_key<T: 'static>() -> TypeId {
    vstd::pervasive::arbitrary::<spec_fn(T) -> TypeId>()(vstd::pervasive::arbitrary::<T>())
}

/// One value of a type unknown to the holder, boxed.
#[verifier::external_body]
pub struct Erased(Box<dyn Any>);

/// The `T` that an erased value holds, when it was made from a `T`.
pub closed spec fn unerase<T: 'static>(e: Erased) -> T {
    vstd::pervasive::arbitrary::<spec_fn(Erased) -> T>()(e)
}

/// Type-erased storage: one boxed value per type identity, each filed under
/// the identity of the value's own type.
///
/// Verus cannot hold `Box<dyn Any>`, so the table is kept out of its sight and
/// reached only through the methods below.
#[verifier::external_body]
pub struct Slots {
    raw: HashMap<TypeId, Erased, BuildHasherDefault<Noop>>,
}

/// The entries of the table, by type identity.
pub uninterp spec fn slot_entries(s: Slots) -> Map<TypeId, Erased>;

/// A table with no entries.
pub open spec fn no_entries() -> Map<TypeId, Erased> {
    Map::empty()
}

/// Relies on `TypeId::of`: the identity of `T`.
#[verifier::external_body]
pub fn type_id_of<T: 'static>() -> (r: TypeId)
    ensures
        r == type_key::<T>(),
{
    TypeId::of::<T>()
}

impl Slots {
    /// Relies on `HashMap::default`: the new table is empty.
    #[verifier::external_body]
    pub fn new() -> (r: Slots)
        ensures
            slot_entries(r) == no_entries(),
    {
        Slots { raw: HashMap::default() }
    }

    /// Relies on `HashMap::with_capacity_and_hasher`: the new table is empty;
    /// the capacity is only room reserved.
    #[verifier::external_body]
    pub fn with_capacity(capacity: usize) -> (r: Slots)
        ensures
            slot_entries(r) == no_entries(),
    {
        Slots { raw: HashMap::with_capacity_and_hasher(capacity, BuildHasherDefault::default()) }
    }

    /// Relies on `HashMap::clear`: every entry is dropped.
    #[verifier::external_body]
    pub fn clear(&mut self)
        ensures
            slot_entries(*final(self)) == no_entries(),
    {
        self.raw.clear();
    }

    /// Relies on `HashMap::len`: the number of entries.
    #[verifier::external_body]
    pub fn len(&self) -> (r: usize)
        ensures
            r as nat == slot_entries(*self).len(),
    {
        self.raw.len()
    }

    /// Relies on `HashMap::contains_key`: whether `k` holds an entry.
    #[verifier::external_body]
    pub fn contains_key(&self, k: TypeId) -> (r: bool)
        ensures
            r == slot_entries(*self).contains_key(k),
    {
        self.raw.contains_key(&k)
    }

    /// Relies on `HashMap::get`, and on `downcast_ref`, which succeeds since
    /// the entry under the identity of `T` was made from a `T`.
    #[verifier::external_body]
    pub fn get<T: 'static>(&self, k: TypeId) -> (r: Option<&T>)
        requires
            k == type_key::<T>(),
        ensures
            r is Some <==> slot_entries(*self).contains_key(k),
            r matches Some(v) ==> *v == unerase::<T>(slot_entries(*self)[k]),
    {
        self.raw.get(&k).map(|v| v.0.downcast_ref().unwrap())
    }

    /// Relies on `HashMap::get_mut`, and on `downcast_mut` as `get` does on
    /// `downcast_ref`. What is written through the reference is what the
    /// entry holds afterwards; no other entry changes.
    #[verifier::external_body]
    pub fn get_mut<T: 'static>(&mut self, k: TypeId) -> (r: Option<&mut T>)
        requires
            k == type_key::<T>(),
        ensures
            r is Some <==> slot_entries(*old(self)).contains_key(k),
            r is None ==> slot_entries(*final(self)) == slot_entries(*old(self)),
            r matches Some(v) ==> {
                &&& *v == unerase::<T>(slot_entries(*old(self))[k])
                &&& slot_entries(*final(self)).dom() == slot_entries(*old(self)).dom().insert(k)
                &&& slot_entries(*final(self)).remove(k) == slot_entries(*old(self)).remove(k)
                &&& unerase::<T>(slot_entries(*final(self))[k]) == *final(v)
            },
    {
        self.raw.get_mut(&k).map(|v| v.0.downcast_mut().unwrap())
    }

    /// Relies on `HashMap::insert`: `value` is boxed and filed under `k`, and
    /// the value that `k` held before, if any, comes back (`downcast`
    /// succeeds as in `get`).
    #[verifier::external_body]
    pub fn insert<T: 'static>(&mut self, k: TypeId, value: T) -> (r: Option<T>)
        requires
            k == type_key::<T>(),
        ensures
            slot_entries(*final(self)).dom() == slot_entries(*old(self)).dom().insert(k),
            slot_entries(*final(self)).remove(k) == slot_entries(*old(self)).remove(k),
            unerase::<T>(slot_entries(*final(self))[k]) == value,
            r == (if slot_entries(*old(self)).contains_key(k) {
                Some(unerase::<T>(slot_entries(*old(self))[k]))
            } else {
                None
            }),
    {
        self.raw.insert(k, Erased(Box::new(value))).map(|p| *p.0.downcast().unwrap())
    }

    /// Relies on `HashMap::remove`: the entry under `k`, if any, leaves the
    /// table and its value comes back (`downcast` succeeds as in `get`).
    #[verifier::external_body]
    pub fn remove<T: 'static>(&mut self, k: TypeId) -> (r: Option<T>)
        requires
            k == type_key::<T>(),
        ensures
            slot_entries(*final(self)) == slot_entries(*old(self)).remove(k),
            r == (if slot_entries(*old(self)).contains_key(k) {
                Some(unerase::<T>(slot_entries(*old(self))[k]))
            } else {
                None
            }),
    {
        self.raw.remove(&k).map(|v| *v.0.downcast().unwrap())
    }
}

} // verus!

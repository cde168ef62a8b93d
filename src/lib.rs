//! A map that holds at most one value of each type, keyed by the type itself.
//!
//! A value is filed under the identity of its own static type, so callers name
//! only the type they want. The map is modelled as the table of its entries
//! by type identity; `type_key::<T>()` is the identity of `T`, and
//! `value_of::<T>()` is the `T` on file, if any.
mod hasher;
mod slots;

pub use slots::{no_entries, type_key, unerase, Erased};

use slots::{slot_entries, type_id_of, Slots};
use std::any::TypeId;
use vstd::prelude::*;

verus! {

/// `after` is `before` with `value` filed under the identity of `T`, in place
/// of what that identity held, and every other entry as it was.
pub open spec fn inserted<T: 'static>(before: TypeMap, after: TypeMap, value: T) -> bool {
    let k = type_key::<T>();
    &&& after@.dom() == before@.dom().insert(k)
    &&& after@.remove(k) == before@.remove(k)
    &&& after.value_of::<T>() == Some(value)
}

/// After an insertion the value of `T` is the one inserted, and `T` is on file.
pub proof fn lemma_insert_then_get<T: 'static>(before: TypeMap, after: TypeMap, value: T)
    requires
        inserted(before, after, value),
    ensures
        after.value_of::<T>() == Some(value),
        after@.contains_key(type_key::<T>()),
{
}

/// An insertion of a `T` leaves the value of every type with another identity
/// as it was.
pub proof fn lemma_insert_keeps_other_types<T: 'static, U: 'static>(
    before: TypeMap,
    after: TypeMap,
    value: T,
)
    requires
        inserted(before, after, value),
        type_key::<U>() != type_key::<T>(),
    ensures
        after.value_of::<U>() == before.value_of::<U>(),
        after@.contains_key(type_key::<U>()) == before@.contains_key(type_key::<U>()),
{
    let k = type_key::<T>();
    let ku = type_key::<U>();
    assert(after@.remove(k).contains_key(ku) == after@.contains_key(ku));
    assert(before@.remove(k).contains_key(ku) == before@.contains_key(ku));
    if before@.contains_key(ku) {
        assert(after@.remove(k)[ku] == after@[ku]);
        assert(before@.remove(k)[ku] == before@[ku]);
    }
}

/// A removal of `T` leaves the value of every type with another identity as
/// it was.
pub proof fn lemma_remove_keeps_other_types<T: 'static, U: 'static>(before: TypeMap, after: TypeMap)
    requires
        after@ == before@.remove(type_key::<T>()),
        type_key::<U>() != type_key::<T>(),
    ensures
        after.value_of::<U>() == before.value_of::<U>(),
        after@.contains_key(type_key::<U>()) == before@.contains_key(type_key::<U>()),
{
}

/// After a removal of `T` no value of `T` is on file.
pub proof fn lemma_remove_then_get<T: 'static>(before: TypeMap, after: TypeMap)
    requires
        after@ == before@.remove(type_key::<T>()),
    ensures
        after.value_of::<T>() is None,
        !after@.contains_key(type_key::<T>()),
{
}

/// An insertion adds one to the count exactly when `T` had no value, and
/// keeps the count when it replaces one.
pub proof fn lemma_insert_count<T: 'static>(before: TypeMap, after: TypeMap, value: T)
    requires
        before.wf(),
        inserted(before, after, value),
    ensures
        after.wf(),
        before.value_of::<T>() is Some ==> after@.len() == before@.len(),
        before.value_of::<T>() is None ==> after@.len() == before@.len() + 1,
{
}

/// On an empty map an insertion finds no earlier value and leaves one entry.
pub proof fn lemma_first_insert<T: 'static>(before: TypeMap, after: TypeMap, value: T)
    requires
        before@ == no_entries(),
        inserted(before, after, value),
    ensures
        before.value_of::<T>() is None,
        after@.len() == 1,
{
    assert(after@.dom() =~= set![type_key::<T>()]);
}

/// An empty map, as `clear` leaves it, counts nothing and holds no value of
/// any type.
pub proof fn lemma_cleared<T: 'static>(m: TypeMap)
    requires
        m@ == no_entries(),
    ensures
        m@.len() == 0,
        m.value_of::<T>() is None,
        !m@.contains_key(type_key::<T>()),
{
}

/// Inserting a `T` that was absent and then removing it gives back the map
/// as it was.
pub proof fn lemma_insert_then_remove<T: 'static>(
    before: TypeMap,
    middle: TypeMap,
    after: TypeMap,
    value: T,
)
    requires
        before.value_of::<T>() is None,
        inserted(before, middle, value),
        after@ == middle@.remove(type_key::<T>()),
    ensures
        after@ == before@,
{
    assert(after@ =~= before@);
}

/// Two insertions of values of types with distinct identities give the same
/// map in either order: the same identities, the same two values, and every
/// other type's value as it was.
pub proof fn lemma_insert_order<T: 'static, U: 'static, W: 'static>(
    m: TypeMap,
    m1: TypeMap,
    m2: TypeMap,
    n1: TypeMap,
    n2: TypeMap,
    a: T,
    b: U,
)
    requires
        type_key::<T>() != type_key::<U>(),
        inserted(m, m1, a),
        inserted(m1, m2, b),
        inserted(m, n1, b),
        inserted(n1, n2, a),
    ensures
        m2@.dom() == n2@.dom(),
        m2.value_of::<T>() == Some(a),
        n2.value_of::<T>() == Some(a),
        m2.value_of::<U>() == Some(b),
        n2.value_of::<U>() == Some(b),
        type_key::<W>() != type_key::<T>() && type_key::<W>() != type_key::<U>()
            ==> m2.value_of::<W>() == n2.value_of::<W>(),
{
    lemma_insert_keeps_other_types::<U, T>(m1, m2, b);
    lemma_insert_keeps_other_types::<T, U>(n1, n2, a);
    assert(m2@.dom() =~= n2@.dom());
    if type_key::<W>() != type_key::<T>() && type_key::<W>() != type_key::<U>() {
        lemma_insert_keeps_other_types::<T, W>(m, m1, a);
        lemma_insert_keeps_other_types::<U, W>(m1, m2, b);
        lemma_insert_keeps_other_types::<U, W>(m, n1, b);
        lemma_insert_keeps_other_types::<T, W>(n1, n2, a);
    }
}

/// A map structure containing either zero or one value(s) for any given type.
pub struct TypeMap {
    raw: Slots,
}

impl View for TypeMap {
    type V = Map<TypeId, Erased>;

    /// The entries, by the identity of the type of the value each holds.
    closed spec fn view(&self) -> Map<TypeId, Erased> {
        slot_entries(self.raw)
    }
}

impl Default for TypeMap {
    /// An empty `TypeMap`.
    fn default() -> (r: TypeMap)
        ensures
            r.wf(),
            r@ == no_entries(),
    {
        TypeMap::new()
    }
}

impl TypeMap {
    /// The entries are finitely many.
    pub open spec fn wf(&self) -> bool {
        self@.dom().finite()
    }

    /// The value of type `T` on file, if any.
    pub open spec fn value_of<T: 'static>(&self) -> Option<T> {
        if self@.contains_key(type_key::<T>()) {
            Some(unerase::<T>(self@[type_key::<T>()]))
        } else {
            None
        }
    }

    /// Creates an empty `TypeMap`.
    pub fn new() -> (r: TypeMap)
        ensures
            r.wf(),
            r@ == no_entries(),
    {
        TypeMap { raw: Slots::new() }
    }

    /// Creates an empty `TypeMap` with at least the specified capacity.
    pub fn with_capacity(capacity: usize) -> (r: TypeMap)
        ensures
            r.wf(),
            r@ == no_entries(),
    {
        TypeMap { raw: Slots::with_capacity(capacity) }
    }

    /// Clears the map, removing all key-value pairs. Keeps the allocated memory for reuse.
    pub fn clear(&mut self)
        ensures
            final(self).wf(),
            final(self)@ == no_entries(),
    {
        self.raw.clear();
    }

    /// Returns `true` if the map contains a value of type `T`.
    pub fn contains<T: 'static>(&self) -> (r: bool)
        ensures
            r == self@.contains_key(type_key::<T>()),
            r == self.value_of::<T>() is Some,
    {
        self.raw.contains_key(type_id_of::<T>())
    }

    /// Returns a reference to the value of type `T`.
    pub fn get<T: 'static>(&self) -> (r: Option<&T>)
        ensures
            r is Some <==> self.value_of::<T>() is Some,
            r matches Some(v) ==> self.value_of::<T>() == Some(*v),
    {
        self.raw.get::<T>(type_id_of::<T>())
    }

    /// Returns a mutable reference to the value of type `T`.
    ///
    /// The reference starts at the value on file, and what it holds when it
    /// is let go is the value of `T` from then on.
    pub fn get_mut<T: 'static>(&mut self) -> (r: Option<&mut T>)
        requires
            old(self).wf(),
        ensures
            final(self).wf(),
            r is Some <==> old(self).value_of::<T>() is Some,
            r is None ==> final(self)@ == old(self)@,
            r matches Some(v) ==> {
                &&& old(self).value_of::<T>() == Some(*v)
                &&& inserted(*old(self), *final(self), *final(v))
            },
    {
        self.raw.get_mut::<T>(type_id_of::<T>())
    }

    /// Inserts a value of type `T` into the map.
    ///
    /// Returns the previous value of type `T`.
    pub fn insert<T: 'static>(&mut self, value: T) -> (r: Option<T>)
        requires
            old(self).wf(),
        ensures
            final(self).wf(),
            inserted(*old(self), *final(self), value),
            r == old(self).value_of::<T>(),
    {
        self.raw.insert(type_id_of::<T>(), value)
    }

    /// Returns true if the map contains no elements.
    pub fn is_empty(&self) -> (r: bool)
        requires
            self.wf(),
        ensures
            r == (self@.len() == 0),
            r == (self@ == no_entries()),
    {
        let r = self.len() == 0;
        proof {
            if r {
                assert(self@.dom() =~= Set::<TypeId>::empty());
                assert(self@ =~= no_entries());
            }
        }
        r
    }

    /// Returns the number of elements in the map.
    pub fn len(&self) -> (r: usize)
        ensures
            r as nat == self@.len(),
    {
        self.raw.len()
    }

    /// Removes and returns a value of type `T` from the map.
    pub fn remove<T: 'static>(&mut self) -> (r: Option<T>)
        requires
            old(self).wf(),
        ensures
            final(self).wf(),
            final(self)@ == old(self)@.remove(type_key::<T>()),
            r == old(self).value_of::<T>(),
    {
        self.raw.remove::<T>(type_id_of::<T>())
    }
}

} // verus!

//! The store: one container that multiplexes a generational arena per
//! stored type.
//!
//! Verified code has no open-ended dynamic typing, so the store realises
//! type identity as a closed registry: one arena field per storable type,
//! selected through the [`Storable`] trait. Every arena exists, empty, from
//! construction on; an empty arena is indistinguishable from an absent one,
//! so enumeration never has to create state as a side effect. Queries for a
//! type that was never spawned simply find its arena empty.
//!
//! The registry currently covers `i32`, `i64`, `bool` and `String`; holding
//! another type means adding an arena field and a [`Storable`]
//! implementation beside the existing ones, whose proof obligations make
//! the new arena line up with the rest.

use crate::arena::Arena;
use crate::arena::Id;
use crate::arena::insert_effect;
use crate::arena::remove_effect;
use crate::arena::update2_effect;
use crate::arena::update_effect;
use vstd::prelude::*;

verus! {

/// The heterogeneous object store: one generational arena per storable
/// type, behind a single value.
///
/// Each type's values are reachable only through that type's arena, so a
/// value spawned as one type is never observable through queries for
/// another.
pub struct Store {
    /// Arena for `i32` values.
    pub ints: Arena<i32>,
    /// Arena for `i64` values.
    pub longs: Arena<i64>,
    /// Arena for `bool` values.
    pub flags: Arena<bool>,
    /// Arena for `String` values.
    pub texts: Arena<String>,
}

/// A type the store can hold: the trait picks out the one arena of the
/// store that keeps values of this type.
///
/// `sel` and `put` are the spec-level projection and replacement of that
/// arena; `arena` and `arena_mut` are their executable counterparts. The
/// proof obligations tie the four together and every implementation proves
/// them, so nothing about the mapping is taken on trust.
pub trait Storable: Sized {
    /// The arena of `s` that holds values of this type.
    spec fn sel(s: Store) -> Arena<Self>;

    /// `s` with this type's arena replaced by `a`, all others untouched.
    spec fn put(s: Store, a: Arena<Self>) -> Store;

    /// Replacing the arena and reading it back are inverses, replacement
    /// preserves well-formedness, and replacing an arena by itself changes
    /// nothing.
    proof fn put_sel(s: Store, a: Arena<Self>)
        ensures
            Self::sel(Self::put(s, a)) == a,
            s.wf() && a.wf() ==> Self::put(s, a).wf(),
            Self::put(s, Self::sel(s)) == s,
            s.wf() ==> Self::sel(s).wf(),
            s.is_empty() ==> Self::sel(s).is_empty(),
    ;

    /// Borrows this type's arena.
    fn arena(s: &Store) -> (r: &Arena<Self>)
        ensures
            *r == Self::sel(*s),
    ;

    /// Mutably borrows this type's arena; the store ends up with the arena
    /// as the caller leaves it, every other arena untouched.
    fn arena_mut(s: &mut Store) -> (r: &mut Arena<Self>)
        ensures
            *r == Self::sel(*old(s)),
            *final(s) == Self::put(*old(s), *final(r)),
    ;
}

impl Storable for i32 {
    open spec fn sel(s: Store) -> Arena<i32> {
        s.ints
    }

    open spec fn put(s: Store, a: Arena<i32>) -> Store {
        Store { ints: a, ..s }
    }

    proof fn put_sel(s: Store, a: Arena<i32>) {
    }

    fn arena(s: &Store) -> (r: &Arena<i32>) {
        &s.ints
    }

    fn arena_mut(s: &mut Store) -> (r: &mut Arena<i32>) {
        &mut s.ints
    }
}

impl Storable for i64 {
    open spec fn sel(s: Store) -> Arena<i64> {
        s.longs
    }

    open spec fn put(s: Store, a: Arena<i64>) -> Store {
        Store { longs: a, ..s }
    }

    proof fn put_sel(s: Store, a: Arena<i64>) {
    }

    fn arena(s: &Store) -> (r: &Arena<i64>) {
        &s.longs
    }

    fn arena_mut(s: &mut Store) -> (r: &mut Arena<i64>) {
        &mut s.longs
    }
}

impl Storable for bool {
    open spec fn sel(s: Store) -> Arena<bool> {
        s.flags
    }

    open spec fn put(s: Store, a: Arena<bool>) -> Store {
        Store { flags: a, ..s }
    }

    proof fn put_sel(s: Store, a: Arena<bool>) {
    }

    fn arena(s: &Store) -> (r: &Arena<bool>) {
        &s.flags
    }

    fn arena_mut(s: &mut Store) -> (r: &mut Arena<bool>) {
        &mut s.flags
    }
}

impl Storable for String {
    open spec fn sel(s: Store) -> Arena<String> {
        s.texts
    }

    open spec fn put(s: Store, a: Arena<String>) -> Store {
        Store { texts: a, ..s }
    }

    proof fn put_sel(s: Store, a: Arena<String>) {
    }

    fn arena(s: &Store) -> (r: &Arena<String>) {
        &s.texts
    }

    fn arena_mut(s: &mut Store) -> (r: &mut Arena<String>) {
        &mut s.texts
    }
}

impl Store {
    /// Every arena of the store is well formed.
    pub open spec fn wf(self) -> bool {
        &&& self.ints.wf()
        &&& self.longs.wf()
        &&& self.flags.wf()
        &&& self.texts.wf()
    }

    /// The store holds nothing of any type.
    pub open spec fn is_empty(self) -> bool {
        &&& self.ints.is_empty()
        &&& self.longs.is_empty()
        &&& self.flags.is_empty()
        &&& self.texts.is_empty()
    }

    /// Creates a new, empty store.
    pub fn new() -> (s: Store)
        ensures
            s.wf(),
            s.is_empty(),
    {
        Store {
            ints: Arena::new(),
            longs: Arena::new(),
            flags: Arena::new(),
            texts: Arena::new(),
        }
    }

    /// Spawns a new value in the store and returns a handle to it.
    ///
    /// Types need no registration beforehand: the value goes into its
    /// type's arena, and every other type's arena is left untouched. The
    /// handle is strongly typed — the one for an `i32` is an `Id<i32>`.
    pub fn spawn<T: Storable>(&mut self, value: T) -> (id: Id<T>)
        requires
            old(self).wf(),
        ensures
            final(self).wf(),
            insert_effect(T::sel(*old(self)), T::sel(*final(self)), id, value),
            *final(self) == T::put(*old(self), T::sel(*final(self))),
    {
        let a = T::arena_mut(self);
        proof {
            T::put_sel(*old(self), T::sel(*old(self)));
        }
        let id = a.insert(value);
        proof {
            T::put_sel(*old(self), *final(a));
        }
        id
    }

    /// Returns a reference to the value the handle addresses, or `None`
    /// when the handle is stale, freed or was never minted by this store.
    pub fn get<T: Storable>(&self, id: Id<T>) -> (r: Option<&T>)
        ensures
            match r {
                Some(v) => T::sel(*self).lookup(id) == Some(*v),
                None => T::sel(*self).lookup(id) is None,
            },
    {
        T::arena(self).get(id)
    }

    /// Returns a mutable reference to the value the handle addresses, or
    /// `None` when the handle is stale, freed or was never minted by this
    /// store. Writing through the reference updates exactly that value.
    pub fn get_mut<T: Storable>(&mut self, id: Id<T>) -> (r: Option<&mut T>)
        requires
            old(self).wf(),
        ensures
            final(self).wf(),
            T::sel(*old(self)).live(id) <==> r is Some,
            r is Some ==> *r.unwrap() == T::sel(*old(self)).value_at(id.slot as int)
                && update_effect(
                T::sel(*old(self)),
                T::sel(*final(self)),
                id,
                *final(r.unwrap()),
            ) && *final(self) == T::put(*old(self), T::sel(*final(self))),
            r is None ==> *final(self) == *old(self),
    {
        let a = T::arena_mut(self);
        proof {
            assert forall|x: Arena<T>| #[trigger] T::sel(T::put(*old(self), x)) == x by {
                T::put_sel(*old(self), x);
            }
            assert forall|x: Arena<T>| old(self).wf() && x.wf() implies (#[trigger] T::put(
                *old(self),
                x,
            )).wf() by {
                T::put_sel(*old(self), x);
            }
            T::put_sel(*old(self), T::sel(*old(self)));
        }
        a.get_mut(id)
    }

    /// Removes the value the handle addresses and returns it, freeing its
    /// slot for reuse; `None` when the handle is stale, freed or was never
    /// minted by this store. A second `remove` with the same handle returns
    /// `None`.
    pub fn remove<T: Storable>(&mut self, id: Id<T>) -> (r: Option<T>)
        requires
            old(self).wf(),
        ensures
            final(self).wf(),
            T::sel(*old(self)).live(id) ==> r == Some(
                T::sel(*old(self)).value_at(id.slot as int),
            ) && remove_effect(T::sel(*old(self)), T::sel(*final(self)), id) && *final(self)
                == T::put(*old(self), T::sel(*final(self))),
            !T::sel(*old(self)).live(id) ==> r is None && *final(self) == *old(self),
    {
        let a = T::arena_mut(self);
        proof {
            T::put_sel(*old(self), T::sel(*old(self)));
        }
        let r = a.remove(id);
        proof {
            T::put_sel(*old(self), *final(a));
        }
        r
    }

    /// Returns every live handle of type `T` paired with a reference to its
    /// value, in iteration order. A type never spawned yields nothing, and
    /// enumeration creates no arena as a side effect.
    pub fn iter<T: Storable>(&self) -> (r: Vec<(Id<T>, &T)>)
        ensures
            r@.len() == T::sel(*self).ids().len(),
            forall|j: int|
                0 <= j < r@.len() ==> (#[trigger] r@[j]).0 == T::sel(*self).ids()[j] && T::sel(
                    *self,
                ).lookup(r@[j].0) == Some(*r@[j].1),
    {
        T::arena(self).iter()
    }

    /// Returns the handles of every value of type `T`, in iteration order,
    /// for subsequent mutation through `get_mut` or `get2_mut`; the call
    /// itself changes no state.
    pub fn iter_mut<T: Storable>(&mut self) -> (r: Vec<Id<T>>)
        ensures
            *final(self) == *old(self),
            r@ == T::sel(*old(self)).ids(),
    {
        let a = T::arena_mut(self);
        proof {
            T::put_sel(*old(self), T::sel(*old(self)));
        }
        let r = a.iter_mut();
        proof {
            T::put_sel(*old(self), *final(a));
        }
        r
    }

    /// Returns mutable references to the two distinct values the handles
    /// address, each `None` when its handle does not resolve. The handles
    /// must differ: asking twice for the same slot under the same
    /// generation would alias one value, which is a caller error.
    pub fn get2_mut<T: Storable>(&mut self, id1: Id<T>, id2: Id<T>) -> (r: (
        Option<&mut T>,
        Option<&mut T>,
    ))
        requires
            old(self).wf(),
            !(id1.slot == id2.slot && id1.generation == id2.generation),
        ensures
            final(self).wf(),
            T::sel(*old(self)).live(id1) <==> r.0 is Some,
            T::sel(*old(self)).live(id2) <==> r.1 is Some,
            r.0 is Some ==> *r.0.unwrap() == T::sel(*old(self)).value_at(id1.slot as int),
            r.1 is Some ==> *r.1.unwrap() == T::sel(*old(self)).value_at(id2.slot as int),
            r.0 is Some && r.1 is Some ==> update2_effect(
                T::sel(*old(self)),
                T::sel(*final(self)),
                id1,
                id2,
                *final(r.0.unwrap()),
                *final(r.1.unwrap()),
            ),
            r.0 is Some && r.1 is None ==> update_effect(
                T::sel(*old(self)),
                T::sel(*final(self)),
                id1,
                *final(r.0.unwrap()),
            ),
            r.0 is None && r.1 is Some ==> update_effect(
                T::sel(*old(self)),
                T::sel(*final(self)),
                id2,
                *final(r.1.unwrap()),
            ),
            r.0 is None && r.1 is None ==> *final(self) == *old(self),
            *final(self) == T::put(*old(self), T::sel(*final(self))),
    {
        let a = T::arena_mut(self);
        proof {
            assert forall|x: Arena<T>| #[trigger] T::sel(T::put(*old(self), x)) == x by {
                T::put_sel(*old(self), x);
            }
            assert forall|x: Arena<T>| old(self).wf() && x.wf() implies (#[trigger] T::put(
                *old(self),
                x,
            )).wf() by {
                T::put_sel(*old(self), x);
            }
            T::put_sel(*old(self), T::sel(*old(self)));
        }
        a.get2_mut(id1, id2)
    }
}

impl Default for Store {
    /// A fresh store, the same as `Store::new`.
    fn default() -> (s: Store)
        ensures
            s.wf(),
            s.is_empty(),
    {
        Store::new()
    }
}

/// Law: a fresh store answers no identifier of any storable type and
/// enumerates no elements for it — before the first spawn of a type,
/// `iter` for it yields nothing and `get` returns `None`.
pub proof fn lemma_empty_store<T: Storable>(s: Store, id: Id<T>)
    requires
        s.is_empty(),
    ensures
        T::sel(s).lookup(id) is None,
        T::sel(s).ids() == Seq::<Id<T>>::empty(),
{
    T::put_sel(s, T::sel(s));
    crate::arena::lemma_empty_arena(T::sel(s));
}

/// Law: for every value, looking up the handle `spawn` returned yields
/// exactly that value, before any removal; every other identifier of the
/// type is answered as it was before the spawn.
pub proof fn lemma_store_round_trip<T: Storable>(pre: Store, post: Store, id: Id<T>, value: T)
    requires
        insert_effect(T::sel(pre), T::sel(post), id, value),
    ensures
        T::sel(post).lookup(id) == Some(value),
        forall|o: Id<T>| o != id ==> T::sel(post).lookup(o) == T::sel(pre).lookup(o),
{
    crate::arena::lemma_insert_round_trip(T::sel(pre), T::sel(post), id, value);
}

/// Law: after spawning `v1`, removing its handle and spawning `v2` — even
/// into the freed slot — the first handle differs from the second and is
/// answered with `None`, while the second yields `v2`.
pub proof fn lemma_store_generation_invalidation<T: Storable>(
    s0: Store,
    s1: Store,
    s2: Store,
    s3: Store,
    id1: Id<T>,
    id2: Id<T>,
    v1: T,
    v2: T,
)
    requires
        insert_effect(T::sel(s0), T::sel(s1), id1, v1),
        remove_effect(T::sel(s1), T::sel(s2), id1),
        insert_effect(T::sel(s2), T::sel(s3), id2, v2),
    ensures
        id2 != id1,
        T::sel(s3).lookup(id1) is None,
        T::sel(s3).lookup(id2) == Some(v2),
{
    crate::arena::lemma_generation_invalidation(
        T::sel(s0),
        T::sel(s1),
        T::sel(s2),
        T::sel(s3),
        id1,
        id2,
        v1,
        v2,
    );
}

/// Law: operations on `i32` values never touch another type's arena —
/// putting an `i32` arena leaves the other three exactly as they were, so
/// nothing spawned as `i32` is observable through another type's queries.
pub proof fn lemma_put_i32_isolated(s: Store, a: Arena<i32>)
    ensures
        (<i32 as Storable>::put(s, a)).longs == s.longs,
        (<i32 as Storable>::put(s, a)).flags == s.flags,
        (<i32 as Storable>::put(s, a)).texts == s.texts,
{
}

/// Law: operations on `i64` values never touch another type's arena.
pub proof fn lemma_put_i64_isolated(s: Store, a: Arena<i64>)
    ensures
        (<i64 as Storable>::put(s, a)).ints == s.ints,
        (<i64 as Storable>::put(s, a)).flags == s.flags,
        (<i64 as Storable>::put(s, a)).texts == s.texts,
{
}

/// Law: operations on `bool` values never touch another type's arena.
pub proof fn lemma_put_bool_isolated(s: Store, a: Arena<bool>)
    ensures
        (<bool as Storable>::put(s, a)).ints == s.ints,
        (<bool as Storable>::put(s, a)).longs == s.longs,
        (<bool as Storable>::put(s, a)).texts == s.texts,
{
}

/// Law: operations on `String` values never touch another type's arena.
pub proof fn lemma_put_string_isolated(s: Store, a: Arena<String>)
    ensures
        (<String as Storable>::put(s, a)).ints == s.ints,
        (<String as Storable>::put(s, a)).longs == s.longs,
        (<String as Storable>::put(s, a)).flags == s.flags,
{
}

} // verus!

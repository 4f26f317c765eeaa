//! A generational arena for one value type.
//!
//! Values live in slots; each slot carries a generation counter. Removing a
//! value frees its slot for reuse, and reuse bumps the generation, so an
//! identifier minted before the removal can never alias the new occupant: it
//! is simply answered with `None`.

use core::marker::PhantomData;
use vstd::prelude::*;

verus! {

/// A copyable, strongly typed handle to one value in an arena.
///
/// Two identifiers are equal exactly when they name the same slot position
/// and the same generation. The phantom tag ties the handle to the stored
/// type at compile time, so a handle minted for one type cannot address
/// storage of another.
#[derive(Debug, Hash)]
pub struct Id<T> {
    /// Position of the slot this handle addresses.
    pub slot: usize,
    /// Generation the slot had when this handle was minted.
    pub generation: u64,
    /// Zero-size tag for the stored type.
    pub marker: PhantomData<T>,
}

impl<T> Id<T> {
    /// Builds the handle for a given slot position and generation.
    pub fn new(slot: usize, generation: u64) -> (id: Id<T>)
        ensures
            id.slot == slot,
            id.generation == generation,
    {
        Id { slot, generation, marker: PhantomData }
    }
}

impl<T> Clone for Id<T> {
    fn clone(&self) -> (r: Self)
        ensures
            r == *self,
    {
        Id { slot: self.slot, generation: self.generation, marker: PhantomData }
    }
}

impl<T> Copy for Id<T> {

}

impl<T> PartialEq for Id<T> {
    fn eq(&self, other: &Self) -> bool {
        self.slot == other.slot && self.generation == other.generation
    }
}

impl<T> Eq for Id<T> {

}

impl<T> vstd::std_specs::cmp::PartialEqSpecImpl for Id<T> {
    open spec fn obeys_eq_spec() -> bool {
        true
    }

    open spec fn eq_spec(&self, other: &Self) -> bool {
        self.slot == other.slot && self.generation == other.generation
    }
}

/// One slot of an arena: a generation counter and, when occupied, a value.
struct Slot<T> {
    generation: u64,
    value: Option<T>,
}

/// A generational arena: a vector of slots plus the positions that are free
/// for reuse.
pub struct Arena<T> {
    slots: Vec<Slot<T>>,
    free: Vec<usize>,
}

impl<T> Arena<T> {
    /// Number of slots the arena has ever allocated (occupied or free).
    pub closed spec fn slot_count(self) -> int {
        self.slots@.len() as int
    }

    /// Current generation of slot `i`.
    pub closed spec fn gen_at(self, i: int) -> int {
        self.slots@[i].generation as int
    }

    /// Whether slot `i` currently holds a value.
    pub closed spec fn occupied(self, i: int) -> bool {
        self.slots@[i].value is Some
    }

    /// The value currently held by slot `i`.
    pub closed spec fn value_at(self, i: int) -> T {
        self.slots@[i].value->0
    }

    /// An identifier is live when its slot holds a value of its generation:
    /// exactly then do `get`, `get_mut` and `remove` answer it.
    pub open spec fn live(self, id: Id<T>) -> bool {
        &&& 0 <= id.slot < self.slot_count()
        &&& self.occupied(id.slot as int)
        &&& self.gen_at(id.slot as int) == id.generation
    }

    /// What a lookup of `id` observes: the stored value for a live handle,
    /// nothing for a stale, freed or never-minted one.
    pub open spec fn lookup(self, id: Id<T>) -> Option<T> {
        if self.live(id) {
            Some(self.value_at(id.slot as int))
        } else {
            None
        }
    }

    /// An identifier is dead when its slot has moved past it: the slot's
    /// generation outgrew the handle's, or matches it while the slot is
    /// free. A dead identifier can never become live again.
    pub open spec fn dead(self, id: Id<T>) -> bool {
        &&& 0 <= id.slot < self.slot_count()
        &&& {
            ||| id.generation < self.gen_at(id.slot as int)
            ||| (id.generation == self.gen_at(id.slot as int) && !self.occupied(id.slot as int))
        }
    }

    /// The arena has never held anything.
    pub open spec fn is_empty(self) -> bool {
        self.slot_count() == 0
    }

    /// Internal invariant: the free list names distinct, in-range slots that
    /// are unoccupied and whose generation can still be bumped.
    pub closed spec fn wf(self) -> bool {
        &&& forall|k: int|
            0 <= k < self.free@.len() ==> {
                &&& (#[trigger] self.free@[k]) < self.slots@.len()
                &&& self.slots@[self.free@[k] as int].value is None
                &&& self.slots@[self.free@[k] as int].generation < u64::MAX
            }
        &&& forall|k1: int, k2: int|
            0 <= k1 < k2 < self.free@.len() ==> #[trigger] self.free@[k1] != #[trigger] self.free@[k2]
    }

    /// The handles of the occupied slots among the first `n`, in slot order.
    pub closed spec fn ids_prefix(self, n: int) -> Seq<Id<T>>
        decreases n,
    {
        if n <= 0 {
            Seq::empty()
        } else if self.occupied(n - 1) {
            self.ids_prefix(n - 1).push(
                Id {
                    slot: (n - 1) as usize,
                    generation: self.slots@[n - 1].generation,
                    marker: PhantomData,
                },
            )
        } else {
            self.ids_prefix(n - 1)
        }
    }

    /// The handles of every occupied slot, in iteration order: slot order,
    /// which is insertion order only until a removal frees a slot for reuse.
    pub open spec fn ids(self) -> Seq<Id<T>> {
        self.ids_prefix(self.slot_count())
    }

    /// Creates an empty arena.
    pub fn new() -> (a: Arena<T>)
        ensures
            a.wf(),
            a.is_empty(),
    {
        Arena { slots: Vec::new(), free: Vec::new() }
    }

    /// Inserts `value` and returns a fresh handle to it.
    ///
    /// A freed slot is reused when one exists (its generation bumped so that
    /// stale handles stay dead); otherwise a new slot is appended.
    pub fn insert(&mut self, value: T) -> (id: Id<T>)
        requires
            old(self).wf(),
        ensures
            final(self).wf(),
            insert_effect(*old(self), *final(self), id, value),
    {
        match self.free.pop() {
            Some(slot) => {
                let entry = &mut self.slots[slot];
                let g = entry.generation;
                entry.generation = g + 1;
                entry.value = Some(value);
                Id::new(slot, g + 1)
            },
            None => {
                let slot = self.slots.len();
                self.slots.push(Slot { generation: 0, value: Some(value) });
                Id::new(slot, 0)
            },
        }
    }
}

impl<T> Arena<T> {
    /// Returns a reference to the value `id` addresses, or `None` for a
    /// stale, freed or never-minted identifier.
    pub fn get(&self, id: Id<T>) -> (r: Option<&T>)
        ensures
            match r {
                Some(v) => self.lookup(id) == Some(*v),
                None => self.lookup(id) is None,
            },
    {
        if id.slot < self.slots.len() {
            let entry = &self.slots[id.slot];
            if entry.generation == id.generation {
                entry.value.as_ref()
            } else {
                None
            }
        } else {
            None
        }
    }

    /// Returns a mutable reference to the value `id` addresses, or `None`
    /// for a stale, freed or never-minted identifier. Writing through the
    /// reference updates exactly that slot's value.
    pub fn get_mut(&mut self, id: Id<T>) -> (r: Option<&mut T>)
        requires
            old(self).wf(),
        ensures
            final(self).wf(),
            old(self).live(id) <==> r is Some,
            r is Some ==> *r.unwrap() == old(self).value_at(id.slot as int)
                && update_effect(*old(self), *final(self), id, *final(r.unwrap())),
            r is None ==> *final(self) == *old(self),
    {
        if id.slot < self.slots.len() && self.slots[id.slot].generation == id.generation
            && self.slots[id.slot].value.is_some() {
            let entry = &mut self.slots[id.slot];
            entry.value.as_mut()
        } else {
            None
        }
    }

    /// Removes and returns the value `id` addresses, freeing its slot for
    /// reuse; a stale, freed or never-minted identifier removes nothing.
    /// After a successful removal the identifier is dead for good: a second
    /// `remove` (or any `get`) with it yields `None`.
    pub fn remove(&mut self, id: Id<T>) -> (r: Option<T>)
        requires
            old(self).wf(),
        ensures
            final(self).wf(),
            old(self).live(id) ==> r == Some(old(self).value_at(id.slot as int))
                && remove_effect(*old(self), *final(self), id),
            !old(self).live(id) ==> r is None && *final(self) == *old(self),
    {
        if id.slot < self.slots.len() && self.slots[id.slot].generation == id.generation
            && self.slots[id.slot].value.is_some() {
            let entry = &mut self.slots[id.slot];
            let taken = entry.value.take();
            let g = entry.generation;
            if g < u64::MAX {
                self.free.push(id.slot);
            }
            taken
        } else {
            None
        }
    }
}

/// Slot `i` looks the same in `pre` and `post`: same generation, same
/// occupancy, and (when occupied) the same value.
pub open spec fn slot_unchanged<T>(pre: Arena<T>, post: Arena<T>, i: int) -> bool {
    &&& post.gen_at(i) == pre.gen_at(i)
    &&& post.occupied(i) == pre.occupied(i)
    &&& (pre.occupied(i) ==> post.value_at(i) == pre.value_at(i))
}

/// What one `insert` does to an arena: the returned handle addresses a slot
/// that now holds `value` under the handle's generation; every other slot is
/// untouched. The slot is either appended (generation `0`) or a reused free
/// slot whose generation was bumped.
pub open spec fn insert_effect<T>(pre: Arena<T>, post: Arena<T>, id: Id<T>, value: T) -> bool {
    &&& 0 <= id.slot < post.slot_count()
    &&& post.occupied(id.slot as int)
    &&& post.gen_at(id.slot as int) == id.generation
    &&& post.value_at(id.slot as int) == value
    &&& forall|i: int|
        0 <= i < pre.slot_count() && i != id.slot ==> slot_unchanged(pre, post, i)
    &&& if id.slot == pre.slot_count() {
        post.slot_count() == pre.slot_count() + 1 && id.generation == 0
    } else {
        &&& id.slot < pre.slot_count()
        &&& post.slot_count() == pre.slot_count()
        &&& !pre.occupied(id.slot as int)
        &&& id.generation == pre.gen_at(id.slot as int) + 1
    }
}

impl<T> Arena<T> {
    /// Returns every live handle paired with a reference to its value, in
    /// iteration order. An arena that holds nothing yields nothing; the call
    /// changes no state.
    pub fn iter(&self) -> (r: Vec<(Id<T>, &T)>)
        ensures
            r@.len() == self.ids().len(),
            forall|j: int|
                0 <= j < r@.len() ==> (#[trigger] r@[j]).0 == self.ids()[j] && self.lookup(
                    r@[j].0,
                ) == Some(*r@[j].1),
    {
        let mut out: Vec<(Id<T>, &T)> = Vec::new();
        let n = self.slots.len();
        let mut i: usize = 0;
        while i < n
            invariant
                n == self.slots@.len(),
                i <= n,
                out@.len() == self.ids_prefix(i as int).len(),
                forall|j: int|
                    0 <= j < out@.len() ==> (#[trigger] out@[j]).0 == self.ids_prefix(i as int)[j]
                        && self.lookup(out@[j].0) == Some(*out@[j].1),
            decreases n - i,
        {
            if self.slots[i].value.is_some() {
                let v = self.slots[i].value.as_ref().unwrap();
                out.push((Id::new(i, self.slots[i].generation), v));
            }
            i += 1;
        }
        out
    }

    /// Returns the handles of every occupied slot, in iteration order, for
    /// subsequent mutation through `get_mut` or `get2_mut`; the call itself
    /// changes no state.
    pub fn iter_mut(&mut self) -> (r: Vec<Id<T>>)
        ensures
            *final(self) == *old(self),
            r@ == old(self).ids(),
    {
        let mut out: Vec<Id<T>> = Vec::new();
        let n = self.slots.len();
        let mut i: usize = 0;
        while i < n
            invariant
                n == self.slots@.len(),
                i <= n,
                out@ == self.ids_prefix(i as int),
            decreases n - i,
        {
            if self.slots[i].value.is_some() {
                out.push(Id::new(i, self.slots[i].generation));
            }
            i += 1;
        }
        out
    }

    /// Mutably borrows two distinct slots at once, `lo` before `hi`.
    fn two_slots_mut(slots: &mut Vec<Slot<T>>, lo: usize, hi: usize) -> (r: (
        &mut Slot<T>,
        &mut Slot<T>,
    ))
        requires
            lo < hi < old(slots)@.len(),
        ensures
            *r.0 == old(slots)@[lo as int],
            *r.1 == old(slots)@[hi as int],
            final(slots)@.len() == old(slots)@.len(),
            final(slots)@[lo as int] == *final(r.0),
            final(slots)@[hi as int] == *final(r.1),
            forall|i: int|
                0 <= i < old(slots)@.len() && i != lo && i != hi ==> final(slots)@[i] == old(
                    slots,
                )@[i],
    {
        let sl = slots.as_mut_slice();
        let (left, right) = sl.split_at_mut(hi);
        let (_head, mid) = left.split_at_mut(lo);
        let a = mid.first_mut().unwrap();
        let b = right.first_mut().unwrap();
        (a, b)
    }

    /// Returns mutable references to the two distinct values the given
    /// identifiers address, each `None` when its identifier is stale, freed
    /// or never minted. The two identifiers must differ: asking twice for
    /// the same slot under the same generation would alias one value.
    pub fn get2_mut(&mut self, id1: Id<T>, id2: Id<T>) -> (r: (Option<&mut T>, Option<&mut T>))
        requires
            old(self).wf(),
            !(id1.slot == id2.slot && id1.generation == id2.generation),
        ensures
            final(self).wf(),
            old(self).live(id1) <==> r.0 is Some,
            old(self).live(id2) <==> r.1 is Some,
            r.0 is Some ==> *r.0.unwrap() == old(self).value_at(id1.slot as int),
            r.1 is Some ==> *r.1.unwrap() == old(self).value_at(id2.slot as int),
            r.0 is Some && r.1 is Some ==> update2_effect(
                *old(self),
                *final(self),
                id1,
                id2,
                *final(r.0.unwrap()),
                *final(r.1.unwrap()),
            ),
            r.0 is Some && r.1 is None ==> update_effect(
                *old(self),
                *final(self),
                id1,
                *final(r.0.unwrap()),
            ),
            r.0 is None && r.1 is Some ==> update_effect(
                *old(self),
                *final(self),
                id2,
                *final(r.1.unwrap()),
            ),
            r.0 is None && r.1 is None ==> *final(self) == *old(self),
    {
        let live1 = id1.slot < self.slots.len() && self.slots[id1.slot].generation
            == id1.generation && self.slots[id1.slot].value.is_some();
        let live2 = id2.slot < self.slots.len() && self.slots[id2.slot].generation
            == id2.generation && self.slots[id2.slot].value.is_some();
        if live1 && live2 {
            if id1.slot < id2.slot {
                let (s1, s2) = Self::two_slots_mut(&mut self.slots, id1.slot, id2.slot);
                (s1.value.as_mut(), s2.value.as_mut())
            } else {
                let (s2, s1) = Self::two_slots_mut(&mut self.slots, id2.slot, id1.slot);
                (s1.value.as_mut(), s2.value.as_mut())
            }
        } else if live1 {
            (self.get_mut(id1), None)
        } else if live2 {
            (None, self.get_mut(id2))
        } else {
            (None, None)
        }
    }
}

/// What writing through a `get_mut` reference does: the addressed slot ends
/// up holding `value` under the same generation, every other slot is
/// untouched, and no slot is created or freed.
pub open spec fn update_effect<T>(pre: Arena<T>, post: Arena<T>, id: Id<T>, value: T) -> bool {
    &&& pre.live(id)
    &&& post.slot_count() == pre.slot_count()
    &&& post.occupied(id.slot as int)
    &&& post.gen_at(id.slot as int) == id.generation
    &&& post.value_at(id.slot as int) == value
    &&& forall|i: int|
        0 <= i < pre.slot_count() && i != id.slot ==> slot_unchanged(pre, post, i)
}

/// What writing through both `get2_mut` references does: the two addressed
/// slots end up holding `v1` and `v2` under their generations, and every
/// other slot is untouched.
pub open spec fn update2_effect<T>(
    pre: Arena<T>,
    post: Arena<T>,
    id1: Id<T>,
    id2: Id<T>,
    v1: T,
    v2: T,
) -> bool {
    &&& pre.live(id1) && pre.live(id2)
    &&& id1.slot != id2.slot
    &&& post.slot_count() == pre.slot_count()
    &&& post.occupied(id1.slot as int)
    &&& post.gen_at(id1.slot as int) == id1.generation
    &&& post.value_at(id1.slot as int) == v1
    &&& post.occupied(id2.slot as int)
    &&& post.gen_at(id2.slot as int) == id2.generation
    &&& post.value_at(id2.slot as int) == v2
    &&& forall|i: int|
        0 <= i < pre.slot_count() && i != id1.slot && i != id2.slot ==> slot_unchanged(
            pre,
            post,
            i,
        )
}

/// What one successful `remove` does: the addressed slot becomes free while
/// keeping its generation, and every other slot is untouched. The removed
/// identifier is dead in `post`, and stays dead however the slot is reused,
/// because reuse bumps the generation.
pub open spec fn remove_effect<T>(pre: Arena<T>, post: Arena<T>, id: Id<T>) -> bool {
    &&& pre.live(id)
    &&& post.slot_count() == pre.slot_count()
    &&& !post.occupied(id.slot as int)
    &&& post.gen_at(id.slot as int) == id.generation
    &&& forall|i: int|
        0 <= i < pre.slot_count() && i != id.slot ==> slot_unchanged(pre, post, i)
}

/// Law: a fresh arena answers no identifier and yields no elements.
pub proof fn lemma_empty_arena<T>(a: Arena<T>)
    requires
        a.is_empty(),
    ensures
        forall|id: Id<T>| a.lookup(id) is None,
        a.ids() == Seq::<Id<T>>::empty(),
{
}

/// Law: immediately after an insert, looking up the returned handle yields
/// exactly the inserted value; the handle was not live before, and every
/// other identifier is answered as it was before.
pub proof fn lemma_insert_round_trip<T>(pre: Arena<T>, post: Arena<T>, id: Id<T>, value: T)
    requires
        insert_effect(pre, post, id, value),
    ensures
        post.lookup(id) == Some(value),
        !pre.live(id),
        forall|o: Id<T>| o != id ==> post.lookup(o) == pre.lookup(o),
{
    assert forall|o: Id<T>| o != id implies post.lookup(o) == pre.lookup(o) by {
        if o.slot == id.slot {
            assert(o.generation != id.generation);
        } else if 0 <= o.slot < pre.slot_count() {
            assert(slot_unchanged(pre, post, o.slot as int));
        }
    }
}

/// Law: writing through a `get_mut` reference is visible to every later
/// read: the handle now yields the written value, and every other
/// identifier is answered as before.
pub proof fn lemma_mutation_visible<T>(pre: Arena<T>, post: Arena<T>, id: Id<T>, value: T)
    requires
        update_effect(pre, post, id, value),
    ensures
        post.lookup(id) == Some(value),
        forall|o: Id<T>| o != id ==> post.lookup(o) == pre.lookup(o),
{
    assert forall|o: Id<T>| o != id implies post.lookup(o) == pre.lookup(o) by {
        if o.slot == id.slot {
            assert(o.generation != id.generation);
        } else if 0 <= o.slot < pre.slot_count() {
            assert(slot_unchanged(pre, post, o.slot as int));
        }
    }
}

/// Law: after inserting `v1`, removing its handle and inserting `v2` — even
/// into the very slot that was freed — the old handle differs from the new
/// one and is answered with `None`, while the new handle yields `v2`.
pub proof fn lemma_generation_invalidation<T>(
    a0: Arena<T>,
    a1: Arena<T>,
    a2: Arena<T>,
    a3: Arena<T>,
    id1: Id<T>,
    id2: Id<T>,
    v1: T,
    v2: T,
)
    requires
        insert_effect(a0, a1, id1, v1),
        remove_effect(a1, a2, id1),
        insert_effect(a2, a3, id2, v2),
    ensures
        id2 != id1,
        a3.lookup(id1) is None,
        a3.lookup(id2) == Some(v2),
{
    assert(a2.gen_at(id1.slot as int) == id1.generation);
    assert(!a2.occupied(id1.slot as int));
    if id2.slot == id1.slot {
        assert(id2.generation == id1.generation + 1);
    } else {
        assert(slot_unchanged(a2, a3, id1.slot as int));
    }
}

/// Law: the enumeration names exactly the live handles — every listed
/// handle is live, the listing climbs strictly through the slots (so no
/// handle appears twice), and every live handle is listed.
pub proof fn lemma_ids_characterize<T>(a: Arena<T>)
    ensures
        forall|j: int| 0 <= j < a.ids().len() ==> a.live(#[trigger] a.ids()[j]),
        forall|j1: int, j2: int|
            0 <= j1 < j2 < a.ids().len() ==> (#[trigger] a.ids()[j1]).slot
                < (#[trigger] a.ids()[j2]).slot,
        forall|id: Id<T>| a.live(id) ==> a.ids().contains(id),
{
    lemma_ids_prefix_characterize(a, a.slot_count());
}

proof fn lemma_ids_prefix_characterize<T>(a: Arena<T>, n: int)
    requires
        n <= a.slot_count(),
    ensures
        forall|j: int|
            0 <= j < a.ids_prefix(n).len() ==> a.live(#[trigger] a.ids_prefix(n)[j])
                && a.ids_prefix(n)[j].slot < n,
        forall|j1: int, j2: int|
            0 <= j1 < j2 < a.ids_prefix(n).len() ==> (#[trigger] a.ids_prefix(n)[j1]).slot
                < (#[trigger] a.ids_prefix(n)[j2]).slot,
        forall|id: Id<T>| a.live(id) && id.slot < n ==> a.ids_prefix(n).contains(id),
    decreases n,
{
    vstd::std_specs::vec::axiom_spec_len(&a.slots);
    if n > 0 {
        lemma_ids_prefix_characterize(a, n - 1);
        let prev = a.ids_prefix(n - 1);
        let cur = a.ids_prefix(n);
        if a.occupied(n - 1) {
            let x = Id::<T> {
                slot: (n - 1) as usize,
                generation: a.slots@[n - 1].generation,
                marker: PhantomData,
            };
            assert(cur == prev.push(x));
            assert(a.live(x));
            assert forall|j: int| 0 <= j < cur.len() implies a.live(#[trigger] cur[j])
                && cur[j].slot < n by {
                if j < prev.len() {
                    assert(cur[j] == prev[j]);
                } else {
                    assert(cur[j] == x);
                }
            }
            assert forall|j1: int, j2: int| 0 <= j1 < j2 < cur.len() implies (
            #[trigger] cur[j1]).slot < (#[trigger] cur[j2]).slot by {
                assert(cur[j1] == prev[j1]);
                if j2 < prev.len() {
                    assert(cur[j2] == prev[j2]);
                } else {
                    assert(cur[j2] == x);
                }
            }
            assert forall|id: Id<T>| a.live(id) && id.slot < n implies cur.contains(id) by {
                if id.slot < n - 1 {
                    let j = choose|j: int|
                        0 <= j < prev.len() && #[trigger] prev[j] == id;
                    assert(cur[j] == id);
                } else {
                    assert(id == x);
                    assert(cur.last() == id);
                }
            }
        } else {
            assert(cur == prev);
            assert forall|id: Id<T>| a.live(id) && id.slot < n implies cur.contains(id) by {
                assert(id.slot < n - 1);
            }
        }
    }
}

proof fn lemma_ids_prefix_equal<T>(a: Arena<T>, b: Arena<T>, n: int)
    requires
        n <= a.slot_count(),
        n <= b.slot_count(),
        forall|i: int| 0 <= i < n ==> #[trigger] b.occupied(i) == a.occupied(i),
        forall|i: int| 0 <= i < n ==> #[trigger] b.gen_at(i) == a.gen_at(i),
    ensures
        b.ids_prefix(n) == a.ids_prefix(n),
    decreases n,
{
    if n > 0 {
        lemma_ids_prefix_equal(a, b, n - 1);
        assert(b.gen_at(n - 1) == a.gen_at(n - 1));
        assert(b.slots@[n - 1].generation == a.slots@[n - 1].generation);
    }
}

/// Law: writing a value in place never changes which handles an iteration
/// yields, nor their order: only the value behind the written handle moves.
pub proof fn lemma_update_preserves_ids<T>(pre: Arena<T>, post: Arena<T>, id: Id<T>, value: T)
    requires
        update_effect(pre, post, id, value),
    ensures
        post.ids() == pre.ids(),
{
    assert forall|i: int| 0 <= i < pre.slot_count() implies #[trigger] post.occupied(i)
        == pre.occupied(i) by {
        if i != id.slot {
            assert(slot_unchanged(pre, post, i));
        }
    }
    assert forall|i: int| 0 <= i < pre.slot_count() implies #[trigger] post.gen_at(i)
        == pre.gen_at(i) by {
        if i != id.slot {
            assert(slot_unchanged(pre, post, i));
        }
    }
    lemma_ids_prefix_equal(pre, post, pre.slot_count());
}

/// Law: while no slot has been freed, iteration order is insertion order —
/// an insert that appends a slot adds its handle at the end of the
/// enumeration and moves nothing else.
pub proof fn lemma_append_extends_ids<T>(pre: Arena<T>, post: Arena<T>, id: Id<T>, value: T)
    requires
        insert_effect(pre, post, id, value),
        id.slot == pre.slot_count(),
    ensures
        post.ids() == pre.ids().push(id),
{
    assert forall|i: int| 0 <= i < pre.slot_count() implies #[trigger] post.occupied(i)
        == pre.occupied(i) by {
        assert(slot_unchanged(pre, post, i));
    }
    assert forall|i: int| 0 <= i < pre.slot_count() implies #[trigger] post.gen_at(i)
        == pre.gen_at(i) by {
        assert(slot_unchanged(pre, post, i));
    }
    lemma_ids_prefix_equal(pre, post, pre.slot_count());
    vstd::std_specs::vec::axiom_spec_len(&pre.slots);
    let x = Id::<T> {
        slot: pre.slot_count() as usize,
        generation: post.slots@[pre.slot_count()].generation,
        marker: PhantomData,
    };
    assert(post.ids() == post.ids_prefix(pre.slot_count()).push(x));
    assert(x == id);
}

} // verus!

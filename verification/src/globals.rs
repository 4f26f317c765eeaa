//! The borrow-flag protocol behind the process-wide storage variant.
//!
//! A process-wide store lives outside verified code (a static owned by the
//! embedding program), but the discipline that makes it safe is plain
//! logic: a flag records whether an exclusive guard is outstanding, a
//! second claim while one is outstanding must be refused, and releasing
//! the guard hands the data back and clears the flag. That protocol is
//! what this module states and proves; the embedding program only has to
//! wire it to its static cell and turn a refusal into its failure path.
//!
//! The guard checks out the whole vector, so while it is outstanding the
//! storage itself holds nothing: exclusive access is by possession, not by
//! aliasing. Because the flag stands for one lock over all the data, a
//! holder that tries to claim again before releasing is refused — the
//! non-reentrancy is deliberate, and the embedding program decides whether
//! a refusal blocks, retries or fails.

use vstd::prelude::*;

verus! {

/// The shared storage cell: the data and the flag that records whether an
/// exclusive guard is outstanding.
pub struct Storage {
    /// The stored values; empty while a guard has them checked out.
    pub data: Vec<i32>,
    /// Whether a guard is outstanding.
    pub borrowed: bool,
}

impl Storage {
    /// Creates storage holding the given values, with no guard
    /// outstanding.
    pub fn new(data: Vec<i32>) -> (s: Storage)
        ensures
            s.data == data,
            !s.borrowed,
    {
        Storage { data, borrowed: false }
    }
}

/// Exclusive claim on a [`Storage`]'s data: while a guard exists, the
/// values are in the guard and nowhere else.
pub struct StorageMutGuard {
    /// The checked-out values.
    pub data: Vec<i32>,
}

impl StorageMutGuard {
    /// Borrows the checked-out values.
    pub fn values(&self) -> (r: &Vec<i32>)
        ensures
            *r == self.data,
    {
        &self.data
    }

    /// Mutably borrows the checked-out values.
    pub fn values_mut(&mut self) -> (r: &mut Vec<i32>)
        ensures
            *r == old(self).data,
            final(self).data == *final(r),
    {
        &mut self.data
    }
}

/// What one claim does to the storage: refused and a no-op while a guard
/// is outstanding; otherwise the data moves into the returned guard and
/// the flag goes up.
pub open spec fn claim_effect(pre: Storage, post: Storage, r: Option<StorageMutGuard>) -> bool {
    &&& (pre.borrowed ==> r is None && post == pre)
    &&& (!pre.borrowed ==> r is Some && r.unwrap().data == pre.data && post.borrowed
        && post.data@ == Seq::<i32>::empty())
}

/// Claims exclusive access to the storage's data.
///
/// While no guard is outstanding, the claim succeeds: the data moves into
/// the returned guard and the flag is raised. While one is outstanding,
/// the claim is refused and the storage is untouched — never are two
/// guards over the same data alive at once.
pub fn get_storage_mut(storage: &mut Storage) -> (r: Option<StorageMutGuard>)
    ensures
        claim_effect(*old(storage), *final(storage), r),
{
    if storage.borrowed {
        None
    } else {
        storage.borrowed = true;
        let mut taken: Vec<i32> = Vec::new();
        core::mem::swap(&mut taken, &mut storage.data);
        Some(StorageMutGuard { data: taken })
    }
}

/// Releases a guard: the values it held move back into the storage and the
/// flag is cleared, so the next claim succeeds again.
pub fn release_storage(storage: &mut Storage, guard: StorageMutGuard)
    ensures
        final(storage).data == guard.data,
        !final(storage).borrowed,
{
    storage.data = guard.data;
    storage.borrowed = false;
}

/// Law: while the guard of one successful claim is outstanding, a second
/// claim is refused and changes nothing, so two guards over the same data
/// are never alive at once.
pub proof fn lemma_no_double_borrow(
    s0: Storage,
    s1: Storage,
    s2: Storage,
    r1: Option<StorageMutGuard>,
    r2: Option<StorageMutGuard>,
)
    requires
        claim_effect(s0, s1, r1),
        r1 is Some,
        claim_effect(s1, s2, r2),
    ensures
        r2 is None,
        s2 == s1,
{
}

} // verus!

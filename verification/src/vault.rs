//! The storage cell: the count of the handles and the value they share.

use crate::protocol::INITIAL_COUNT;
use crate::protocol::ONE_HANDLE;
use crate::sync::fetch_sub;
use crate::sync::made_with;
use crate::sync::memory_fence;
use crate::sync::new_count;
use std::sync::atomic::AtomicUsize;
use std::sync::atomic::Ordering;
use vstd::prelude::*;

verus! {

/// The cell that all handles of a class refer to.
///
/// The count is the number of live handles. It is changed only by the atomic
/// increment of a clone and the atomic decrement of a drop, so nothing can be
/// said of it from one thread: its operations return what the other handles
/// have made of it.
pub struct ArkVault<T> where T: Send + Sync {
    rc: AtomicUsize,
    value: T,
}

impl<T> View for ArkVault<T> where T: Send + Sync {
    type V = T;

    /// The value that the cell holds.
    closed spec fn view(&self) -> T {
        self.value
    }
}

impl<T> ArkVault<T> where T: Send + Sync {
    /// The count that the cell was made with. What the count is now is for
    /// the handles of all threads to decide, and no function of the cell.
    pub closed spec fn initial_count(&self) -> usize {
        made_with(self.rc)
    }

    /// A cell that holds `value`, counted for the one handle that is made
    /// with it.
    pub fn new(value: T) -> (cell: ArkVault<T>)
        ensures
            cell@ == value,
            cell.initial_count() == INITIAL_COUNT,
    {
        ArkVault { rc: new_count(INITIAL_COUNT), value }
    }

    /// The value, to read.
    pub fn value_ref(&self) -> (value: &T)
        ensures
            *value == self@,
    {
        &self.value
    }

    /// The value, to write. Who holds the cell mutably holds it alone.
    pub fn value_mut(&mut self) -> (value: &mut T)
        ensures
            *value == old(self)@,
            final(self)@ == *final(value),
            final(self).initial_count() == old(self).initial_count(),
    {
        &mut self.value
    }

    /// Reads the count, relaxed.
    pub(crate) fn observe(&self) -> usize {
        self.rc.load(Ordering::Relaxed)
    }

    /// Counts one handle more, relaxed: the new handle reads a value that
    /// was there before any handle was. Returns the count before.
    pub(crate) fn retain(&self) -> usize {
        self.rc.fetch_add(ONE_HANDLE, Ordering::Relaxed)
    }

    /// Counts one handle less, with release ordering, so that what this
    /// thread wrote is seen by the thread that reclaims. Returns the count
    /// before.
    pub(crate) fn release(&self) -> usize
        opens_invariants none
        no_unwind
    {
        fetch_sub(&self.rc, ONE_HANDLE, Ordering::Release)
    }

    /// Takes an acquire fence. It pairs with the release decrements of the
    /// handles that have gone: what they wrote is seen after it.
    pub(crate) fn synchronize(&self)
        opens_invariants none
        no_unwind
    {
        memory_fence(Ordering::Acquire)
    }
}

} // verus!

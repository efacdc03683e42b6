//! The handle: an owning reference to a storage cell that may be cloned
//! across threads and that lends its value out mutably while it is alone.

use crate::protocol::count_after;
use crate::protocol::grants_exclusive;
use crate::protocol::HandleEvent;
use crate::protocol::is_last;
use crate::protocol::is_unique;
use crate::protocol::INITIAL_COUNT;
use crate::sync::share;
use crate::sync::unique_access;
use crate::vault::ArkVault;
use std::ops::Deref;
use std::sync::Arc;
use vstd::prelude::*;

verus! {

/// A handle to a shared value.
///
/// The handles that were cloned from one another form a class. They share
/// one storage cell, whose count they keep. The cell is held in an `Arc`,
/// which is what lets safe code alias it: the `Arc` frees the cell when the
/// last handle has gone, and lends it out mutably to a handle that is alone.
/// The view of a handle is the value in its cell.
pub struct Ark<T> where T: Send + Sync {
    vault: Arc<ArkVault<T>>,
}

impl<T> View for Ark<T> where T: Send + Sync {
    type V = T;

    /// The value that the handle gives access to.
    closed spec fn view(&self) -> T {
        self.vault@
    }
}

impl<T> Ark<T> where T: Send + Sync {
    /// The cell that the handle refers to.
    pub closed spec fn cell(&self) -> ArkVault<T> {
        *self.vault
    }

    /// The count that the cell of the handle was made with.
    pub closed spec fn initial_count(&self) -> usize {
        self.vault.initial_count()
    }

    /// A handle to a new cell that holds `value`. It is the only handle of
    /// its class, and the cell is made with the count of that one handle.
    pub fn new(value: T) -> (ark: Ark<T>)
        ensures
            ark@ == value,
            ark.initial_count() == INITIAL_COUNT,
    {
        Ark { vault: Arc::new(ArkVault::new(value)) }
    }

    /// The cell that the handle refers to.
    fn vault(&self) -> (cell: &ArkVault<T>)
        ensures
            cell@ == self@,
            cell.initial_count() == self.initial_count(),
    {
        &self.vault
    }

    /// Mutable access to the value, if `ark` is the only handle of its
    /// class, and `None` if another handle exists.
    ///
    /// Whether another handle exists is not a property of `ark`. Two things
    /// are asked: the count of the cell is read, and the `Arc` that holds the
    /// cell is asked to lend it out. [`Ark::grant`] decides on the two
    /// answers. Either way the value is not touched: a reference that is
    /// handed out starts at the value of the handle, and what is written
    /// through it is the value of the handle afterwards.
    pub fn get_mut(ark: &mut Self) -> (access: Option<&mut T>)
        ensures
            access matches Some(value) ==> *value == old(ark)@ && final(ark)@ == *final(value),
            access is None ==> *final(ark) == *old(ark),
            final(ark).initial_count() == old(ark).initial_count(),
    {
        let count = ark.vault().observe();
        Self::grant(count, unique_access(&mut ark.vault))
    }

    /// Decides on exclusive access, from the count that a handle has
    /// observed and from the cell as its holder has lent it out, or not.
    ///
    /// Access is granted if and only if the count is one and the cell was
    /// lent out. With another count, other handles alias the cell; without
    /// the cell, another handle still holds it. Before the value is handed
    /// out an acquire fence is taken, so that what the handles that have
    /// just gone wrote is seen. A cell that is not handed on is left as it
    /// was.
    pub fn grant(count: usize, cell: Option<&mut ArkVault<T>>) -> (access: Option<&mut T>)
        ensures
            access is Some <==> grants_exclusive(count as int) && cell is Some,
            access matches Some(value) ==> cell matches Some(held) && *value == held@
                && final(held)@ == *final(value) && final(held).initial_count()
                == held.initial_count(),
            access is None ==> (cell matches Some(held) ==> *final(held) == *held),
    {
        if is_unique(count) {
            match cell {
                Some(held) => {
                    held.synchronize();
                    Some(held.value_mut())
                },
                None => None,
            }
        } else {
            None
        }
    }
}

impl<T> Clone for Ark<T> where T: Send + Sync {
    /// Another handle of the same class. The count goes up by one; the value
    /// is shared, not copied.
    fn clone(&self) -> (twin: Ark<T>)
        ensures
            twin == *self,
            twin@ == self@,
            twin.initial_count() == self.initial_count(),
    {
        self.vault().retain();
        Ark { vault: share(&self.vault) }
    }
}

impl<T> Drop for Ark<T> where T: Send + Sync {
    /// Gives the handle up. The count goes down by one, with release
    /// ordering. The handle that finds that it was the last takes an acquire
    /// fence, so that it sees what every other handle wrote, before the cell
    /// is freed with its `Arc`. Whatever the decrement returned, the handle
    /// and the value are left as they were: the value is not touched before
    /// the cell is freed.
    fn drop(&mut self)
        ensures
            *final(self) == *old(self),
        opens_invariants none
        no_unwind
    {
        let previous = self.vault.release();
        if is_last(previous) {
            self.vault.synchronize();
        }
    }
}

impl<T> Deref for Ark<T> where T: Send + Sync {
    type Target = T;

    /// The value, to read.
    fn deref(&self) -> (value: &T)
        ensures
            *value == self@,
    {
        self.vault().value_ref()
    }
}

/// A new handle starts the history of its class: its cell is made with the
/// count of the history in which nothing has happened yet, and at that count
/// exclusive access is granted.
pub proof fn law_new_handle_starts_alone<T>(value: T, ark: Ark<T>) where T: Send + Sync
    requires
        call_ensures(Ark::<T>::new, (value,), ark),
    ensures
        ark.initial_count() == count_after(Seq::<HandleEvent>::empty()),
        grants_exclusive(ark.initial_count() as int),
{
}

/// A new handle is granted access: at the count that its cell was made
/// with, and with the cell lent out, the answer is a reference that starts
/// at the value that the handle was made with.
pub proof fn law_new_handle_is_granted<T>(
    value: T,
    ark: Ark<T>,
    cell: &mut ArkVault<T>,
    access: Option<&mut T>,
) where T: Send + Sync
    requires
        call_ensures(Ark::<T>::new, (value,), ark),
        *cell == ark.cell(),
        call_ensures(Ark::<T>::grant, (ark.initial_count(), Some(cell)), access),
    ensures
        access is Some,
        *access->Some_0 == value,
{
}

/// What was written through a granted reference is where the next grant to
/// the handle starts.
pub proof fn law_grant_starts_at_last_write<T>(
    first: &mut Ark<T>,
    written: Option<&mut T>,
    second: &mut Ark<T>,
    again: Option<&mut T>,
) where T: Send + Sync
    requires
        call_ensures(Ark::<T>::get_mut, (first,), written),
        *second == *final(first),
        call_ensures(Ark::<T>::get_mut, (second,), again),
        written is Some,
        again is Some,
    ensures
        *again->Some_0 == *final(written->Some_0),
{
}

/// A write is seen by the class: what was written through a granted
/// reference is what a clone made afterwards reads, and where a grant to
/// that clone starts.
pub proof fn law_clone_sees_last_write<T>(
    first: &mut Ark<T>,
    written: Option<&mut T>,
    twin: Ark<T>,
    read: &T,
    second: &mut Ark<T>,
    again: Option<&mut T>,
) where T: Send + Sync
    requires
        call_ensures(Ark::<T>::get_mut, (first,), written),
        written is Some,
        call_ensures(<Ark<T> as Clone>::clone, (&*final(first),), twin),
        call_ensures(<Ark<T> as Deref>::deref, (&twin,), read),
        *second == twin,
        call_ensures(Ark::<T>::get_mut, (second,), again),
        again is Some,
    ensures
        *read == *final(written->Some_0),
        *again->Some_0 == *final(written->Some_0),
{
}

/// Round trip: what is read through a handle that was made with `value` is
/// `value`.
pub proof fn law_round_trip<T>(value: T, ark: Ark<T>, read: &T) where T: Send + Sync
    requires
        call_ensures(Ark::<T>::new, (value,), ark),
        call_ensures(<Ark<T> as Deref>::deref, (&ark,), read),
    ensures
        *read == value,
{
}

/// A clone reads the value that the handle it was made from reads: the value
/// is shared.
pub proof fn law_clone_reads_the_same<T>(source: Ark<T>, twin: Ark<T>, here: &T, there: &T) where
    T: Send + Sync,

    requires
        call_ensures(<Ark<T> as Clone>::clone, (&source,), twin),
        call_ensures(<Ark<T> as Deref>::deref, (&source,), here),
        call_ensures(<Ark<T> as Deref>::deref, (&twin,), there),
    ensures
        *here == *there,
{
}

} // verus!

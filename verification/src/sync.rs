//! The calls into `std::sync` that the verifier has no contract for.
//!
//! Each function here makes one call and is believed, not proved. What it
//! claims of the call is said above it.

use std::sync::atomic::AtomicUsize;
use std::sync::atomic::Ordering;
use std::sync::Arc;
use vstd::prelude::*;

verus! {

/// `Arc::get_mut`: a mutable reference into the allocation, if no other
/// pointer to it exists, and `None` otherwise.
///
/// Claimed: a reference that is handed out starts at the value in the
/// allocation, and what is written through it is the value in the allocation
/// afterwards; with `None` the pointer and the value are as they were.
/// Which of the two comes back depends on the other pointers and is left
/// open.
#[verifier::external_body]
pub(crate) fn unique_access<T>(shared: &mut Arc<T>) -> (unique: Option<&mut T>)
    ensures
        unique matches Some(inner) ==> *inner == **old(shared) && **final(shared) == *final(inner),
        unique is None ==> *final(shared) == *old(shared),
{
    Arc::get_mut(shared)
}

/// `Arc::clone`: another pointer to the same allocation.
///
/// Claimed: the new pointer leads to the value that the given one leads to.
/// The value is not copied. (The call ends the process, rather than return,
/// once more than `isize::MAX` pointers to one allocation exist.)
#[verifier::external_body]
pub(crate) fn share<T>(shared: &Arc<T>) -> (twin: Arc<T>)
    ensures
        *twin == **shared,
{
    Arc::clone(shared)
}

/// The value that an atomic count was made with.
///
/// It belongs to the atomic as it was made and stays with it: it is not the
/// value that the atomic holds now, which every thread may change.
pub uninterp spec fn made_with(count: AtomicUsize) -> usize;

/// `AtomicUsize::new`: a new atomic that holds the given value.
///
/// Claimed: the atomic was made with `initial`.
#[verifier::external_body]
pub(crate) fn new_count(initial: usize) -> (count: AtomicUsize)
    ensures
        made_with(count) == initial,
{
    AtomicUsize::new(initial)
}

/// `AtomicUsize::fetch_sub`: subtracts `amount` from the count, wrapping
/// around on overflow, and returns the value before.
///
/// Claimed: the call returns, with every ordering. Nothing is claimed of the
/// value that it returns, which other threads decide too. (vstd lets this
/// call be made directly, but leaves open whether it unwinds, and a
/// destructor may call only what does not.)
#[verifier::external_body]
pub(crate) fn fetch_sub(count: &AtomicUsize, amount: usize, order: Ordering) -> (previous: usize)
    opens_invariants none
    no_unwind
{
    count.fetch_sub(amount, order)
}

/// `std::sync::atomic::fence`: a memory fence of the given ordering.
///
/// Claimed: the call returns, unless the ordering is `Relaxed`, on which it
/// panics.
#[verifier::external_body]
pub(crate) fn memory_fence(order: Ordering)
    requires
        !(order is Relaxed),
    opens_invariants none
    no_unwind
{
    std::sync::atomic::fence(order)
}

} // verus!

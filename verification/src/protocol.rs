//! The count protocol of a storage cell.
//!
//! Every handle of a class shares one count. The count starts at
//! [`INITIAL_COUNT`], goes up by [`ONE_HANDLE`] when a handle is cloned and
//! down by as much when a handle is dropped. Two decisions are taken on it:
//! a drop that found the count at one reclaims the cell ([`is_last`]), and
//! exclusive access is granted while the count is one ([`is_unique`]).
//!
//! The count is atomic, so the operations of all threads on one cell form a
//! single sequence. The second half of this module describes such sequences
//! and proves what holds of every one of them.

use vstd::prelude::*;

verus! {

/// The count of a cell that has just been made: the one handle made with it.
pub const INITIAL_COUNT: usize = 1;

/// What one handle counts for: the amount by which a clone raises the count
/// and a drop lowers it.
pub const ONE_HANDLE: usize = 1;

/// Whether a handle that observes `count` is the only one of its class.
pub open spec fn grants_exclusive(count: int) -> bool {
    count == 1
}

/// Whether a drop that found the count at `previous` brought it to zero.
pub open spec fn reclaims(previous: int) -> bool {
    previous == 1
}

/// Decides, on an observed count, whether exclusive access is granted.
pub fn is_unique(count: usize) -> (unique: bool)
    ensures
        unique == grants_exclusive(count as int),
{
    count == 1
}

/// Decides, on the count that a decrement returned, whether that decrement
/// was the last one, so that the cell is to be reclaimed.
pub fn is_last(previous: usize) -> (last: bool)
    ensures
        last == reclaims(previous as int),
    opens_invariants none
    no_unwind
{
    previous == 1
}

/// One operation of a handle on the count of its cell.
pub enum HandleEvent {
    /// A handle was cloned: the count went up by one.
    Cloned,
    /// A handle was dropped: the count went down by one.
    Dropped,
    /// A handle asked for exclusive access: the count was read.
    Probed,
}

/// The count after `event`, when it was `count` before.
pub open spec fn count_step(count: int, event: HandleEvent) -> int {
    match event {
        HandleEvent::Cloned => count + ONE_HANDLE,
        HandleEvent::Dropped => count - ONE_HANDLE,
        HandleEvent::Probed => count,
    }
}

/// The count of a cell after the operations `events`, in the order in which
/// they took effect, counted from the making of the cell.
pub open spec fn count_after(events: Seq<HandleEvent>) -> int
    decreases events.len(),
{
    if events.len() == 0 {
        INITIAL_COUNT as int
    } else {
        count_step(count_after(events.drop_last()), events.last())
    }
}

/// The number of clones among `events`.
pub open spec fn clones(events: Seq<HandleEvent>) -> nat
    decreases events.len(),
{
    if events.len() == 0 {
        0
    } else if events.last() is Cloned {
        clones(events.drop_last()) + 1
    } else {
        clones(events.drop_last())
    }
}

/// The number of drops among `events`.
pub open spec fn drops(events: Seq<HandleEvent>) -> nat
    decreases events.len(),
{
    if events.len() == 0 {
        0
    } else if events.last() is Dropped {
        drops(events.drop_last()) + 1
    } else {
        drops(events.drop_last())
    }
}

/// The number of drops among `events` that reclaimed the cell: those that
/// found the count at one.
pub open spec fn reclamations(events: Seq<HandleEvent>) -> nat
    decreases events.len(),
{
    if events.len() == 0 {
        0
    } else if events.last() is Dropped && reclaims(count_after(events.drop_last())) {
        reclamations(events.drop_last()) + 1
    } else {
        reclamations(events.drop_last())
    }
}

/// Whether `events` is a history that handles can produce: every operation is
/// made through a live handle, so the count was at least one before it.
pub open spec fn is_history(events: Seq<HandleEvent>) -> bool
    decreases events.len(),
{
    events.len() == 0 || (is_history(events.drop_last()) && count_after(events.drop_last()) >= 1)
}

/// Whether all of `events` are requests for exclusive access.
pub open spec fn only_probes(events: Seq<HandleEvent>) -> bool {
    forall|i: int| 0 <= i < events.len() ==> events[i] is Probed
}

/// The count is the number of live handles: the first one, and one more for
/// each clone, less one for each drop. No history brings it below zero.
pub proof fn law_count_is_live_handles(events: Seq<HandleEvent>)
    requires
        is_history(events),
    ensures
        count_after(events) == INITIAL_COUNT + clones(events) - drops(events),
        count_after(events) >= 0,
    decreases events.len(),
{
    if events.len() > 0 {
        law_count_is_live_handles(events.drop_last());
    }
}

/// In every history the cell has been reclaimed once if no handle is left,
/// and not at all while one is.
pub proof fn law_reclaimed_iff_none_left(events: Seq<HandleEvent>)
    requires
        is_history(events),
    ensures
        reclamations(events) == if count_after(events) == 0 {
            1nat
        } else {
            0nat
        },
    decreases events.len(),
{
    if events.len() > 0 {
        law_reclaimed_iff_none_left(events.drop_last());
    }
}

/// Single reclamation: when the first handle and all its clones have been
/// dropped, in whatever order the drops and clones took effect, the cell has
/// been reclaimed exactly once, and the drop that did it is the last
/// operation of the history.
pub proof fn law_single_reclamation(events: Seq<HandleEvent>)
    requires
        is_history(events),
        drops(events) == INITIAL_COUNT + clones(events),
    ensures
        reclamations(events) == 1,
        events.len() > 0,
        events.last() is Dropped,
        reclaims(count_after(events.drop_last())),
        reclamations(events.drop_last()) == 0,
{
    law_count_is_live_handles(events);
    law_reclaimed_iff_none_left(events);
    law_reclaimed_iff_none_left(events.drop_last());
}

/// Every prefix of a history is a history, and a handle is live after each
/// proper prefix.
pub proof fn lemma_prefix_is_history(events: Seq<HandleEvent>, n: int)
    requires
        is_history(events),
        0 <= n <= events.len(),
    ensures
        is_history(events.take(n)),
        n < events.len() ==> count_after(events.take(n)) >= 1,
    decreases events.len(),
{
    if n == events.len() {
        assert(events.take(n) =~= events);
    } else {
        lemma_prefix_is_history(events.drop_last(), n);
        assert(events.drop_last().take(n) =~= events.take(n));
        if n == events.len() - 1 {
            assert(events.take(n) =~= events.drop_last());
        }
    }
}

/// No premature reclamation: while a handle is live the cell has not been
/// reclaimed. This holds at the end of a history that leaves a handle, and
/// before each of its operations.
pub proof fn law_no_premature_reclamation(events: Seq<HandleEvent>, n: int)
    requires
        is_history(events),
        0 <= n <= events.len(),
        n < events.len() || count_after(events) >= 1,
    ensures
        count_after(events.take(n)) >= 1,
        reclamations(events.take(n)) == 0,
{
    lemma_prefix_is_history(events, n);
    if n == events.len() {
        assert(events.take(n) =~= events);
    }
    law_reclaimed_iff_none_left(events.take(n));
}

/// After the reclamation nothing follows: no operation extends a history
/// that has left no handle.
pub proof fn law_nothing_after_reclamation(events: Seq<HandleEvent>, event: HandleEvent)
    requires
        is_history(events),
        count_after(events) == 0,
    ensures
        !is_history(events.push(event)),
{
    assert(events.push(event).drop_last() =~= events);
}

/// The exclusivity gate: after every history, exclusive access is granted if
/// and only if exactly one handle is live.
pub proof fn law_exclusive_iff_one_handle(events: Seq<HandleEvent>)
    requires
        is_history(events),
    ensures
        grants_exclusive(count_after(events)) <==> INITIAL_COUNT + clones(events) - drops(events)
            == 1,
{
    law_count_is_live_handles(events);
}

/// Asking is idempotent: requests for exclusive access, however many, leave
/// the count as it was, so each of them gets the answer that the first got:
/// refused while more than one handle is live, granted once one is left.
pub proof fn law_probes_keep_the_answer(events: Seq<HandleEvent>, probes: Seq<HandleEvent>)
    requires
        only_probes(probes),
    ensures
        count_after(events + probes) == count_after(events),
        reclamations(events + probes) == reclamations(events),
        grants_exclusive(count_after(events + probes)) == grants_exclusive(count_after(events)),
        count_after(events) > 1 ==> !grants_exclusive(count_after(events + probes)),
        count_after(events) == 1 ==> grants_exclusive(count_after(events + probes)),
        is_history(events) && count_after(events) >= 1 ==> is_history(events + probes),
    decreases probes.len(),
{
    if probes.len() == 0 {
        assert(events + probes =~= events);
    } else {
        law_probes_keep_the_answer(events, probes.drop_last());
        assert((events + probes).drop_last() =~= events + probes.drop_last());
        assert((events + probes).last() == probes.last());
        assert(probes[probes.len() - 1] is Probed);
    }
}

/// After a history in which each clone has been dropped again, the count is
/// what it was at the start: one handle is outstanding.
pub proof fn law_balanced_history_restores_count(events: Seq<HandleEvent>)
    requires
        is_history(events),
        clones(events) == drops(events),
    ensures
        count_after(events) == INITIAL_COUNT,
        grants_exclusive(count_after(events)),
        reclamations(events) == 0,
{
    law_count_is_live_handles(events);
    law_reclaimed_iff_none_left(events);
}

} // verus!

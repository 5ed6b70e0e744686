//! The serialization model of the connection lock.
//!
//! Every operation against the shared connection — a prepare, an execute,
//! or one cursor fetch — acquires the connection's mutual-exclusion lock,
//! does its work, and releases the lock.  This module models such a history
//! as a trace of acquire/work/release events and proves that under the lock
//! discipline, the work steps of two different operations never interleave
//! inside one holding span: between a step of one operation and a step of
//! another there is always a release by the first.  In particular, two
//! cursors draining different statements over one connection can never see
//! a partial fetch of one spliced into the other.

use vstd::prelude::*;

verus! {

/// One event in the life of the connection lock, tagged with the operation
/// that performed it.
pub enum LockEvent {
    /// The operation took the lock.
    Acquire(int),
    /// The operation did one step of its work while holding the lock.
    Work(int),
    /// The operation released the lock.
    Release(int),
}

/// Who holds the lock after the events of `t`.
pub open spec fn holder(t: Seq<LockEvent>) -> Option<int>
    decreases t.len(),
{
    if t.len() == 0 {
        None
    } else {
        match t.last() {
            LockEvent::Acquire(a) => Some(a),
            LockEvent::Release(_) => None,
            LockEvent::Work(_) => holder(t.drop_last()),
        }
    }
}

/// The lock discipline: an acquire only when the lock is free, and work or
/// a release only by the current holder.
pub open spec fn well_locked(t: Seq<LockEvent>) -> bool {
    forall|i: int|
        0 <= i < t.len() ==> match #[trigger] t[i] {
            LockEvent::Acquire(_) => holder(t.take(i)) is None,
            LockEvent::Work(a) => holder(t.take(i)) == Some(a),
            LockEvent::Release(a) => holder(t.take(i)) == Some(a),
        }
}

/// While the holder never releases, the holder does not change: nobody else
/// can acquire a held lock, and nobody but the holder may release it.
proof fn lemma_holder_persists(t: Seq<LockEvent>, a: int, i: int, j: int)
    requires
        well_locked(t),
        0 <= i <= j <= t.len(),
        holder(t.take(i)) == Some(a),
        forall|m: int| i <= m < j ==> t[m] != LockEvent::Release(a),
    ensures
        holder(t.take(j)) == Some(a),
    decreases j - i,
{
    if i < j {
        assert(t.take(i + 1).drop_last() =~= t.take(i));
        assert(t.take(i + 1).last() == t[i]);
        match t[i] {
            LockEvent::Acquire(_) => {
                assert(false);
            },
            LockEvent::Work(_) => {
                assert(holder(t.take(i + 1)) == Some(a));
            },
            LockEvent::Release(c) => {
                assert(holder(t.take(i)) == Some(c));
                assert(c == a);
                assert(false);
            },
        }
        lemma_holder_persists(t, a, i + 1, j);
    }
}

/// Mutual exclusion serializes operations: between a work step of one
/// operation and a later work step of a different operation there is
/// always a release by the first, so no operation's work is ever spliced
/// into another's holding span.
pub proof fn lemma_no_interleaving(t: Seq<LockEvent>, a: int, b: int, i: int, j: int)
    requires
        well_locked(t),
        0 <= i < j < t.len(),
        t[i] == LockEvent::Work(a),
        t[j] == LockEvent::Work(b),
        a != b,
    ensures
        exists|m: int| i < m < j && t[m] == LockEvent::Release(a),
{
    if !(exists|m: int| i < m < j && t[m] == LockEvent::Release(a)) {
        assert(holder(t.take(i)) == Some(a));
        assert(t.take(i + 1).drop_last() =~= t.take(i));
        assert(t.take(i + 1).last() == t[i]);
        assert(holder(t.take(i + 1)) == Some(a));
        assert forall|m: int| i + 1 <= m < j implies t[m] != LockEvent::Release(a) by {
            if t[m] == LockEvent::Release(a) {
                assert(i < m < j && t[m] == LockEvent::Release(a));
            }
        }
        lemma_holder_persists(t, a, i + 1, j);
        assert(holder(t.take(j)) == Some(b));
        assert(false);
    }
}

} // verus!

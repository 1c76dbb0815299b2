use vstd::prelude::*;

use crate::registry::{polled, poll_status, removed, wake_target, woken, Slot, Status};

verus! {

/// A continuation stored by a poll is invoked by the next event of its
/// device, whatever the poll reported: a wake-up is never lost.
pub proof fn lemma_stored_continuation_woken<W>(m: Map<u64, Slot<W>>, key: u64, w: W)
    requires
        m.contains_key(key),
    ensures
        wake_target(polled(m, key, w), key) == Some(w),
        woken(polled(m, key, w), key)[key].ready,
{
}

/// After a poll reported `Pending` and stored a continuation, the next event
/// of the device invokes that continuation, and a further event without a
/// new poll invokes nothing: exactly one invocation.
pub proof fn lemma_pending_wakes_exactly_once<W>(m: Map<u64, Slot<W>>, key: u64, w: W)
    requires
        m.contains_key(key),
        poll_status(m, key) == Status::Pending,
    ensures
        wake_target(polled(m, key, w), key) == Some(w),
        wake_target(woken(polled(m, key, w), key), key) == None::<W>,
{
}

/// Deregistering twice is the same as deregistering once, and the second
/// deregistration hands back nothing to release.
pub proof fn lemma_deregister_idempotent<W>(m: Map<u64, Slot<W>>, key: u64)
    ensures
        m.remove(key).remove(key) == m.remove(key),
        removed(m.remove(key), key) == None::<Slot<W>>,
{
    assert(m.remove(key).remove(key) =~= m.remove(key));
}

/// An event of device `a` invokes only the continuation of `a` and leaves
/// the slot of every other device `b` as it was; a poll of `a` does too.
pub proof fn lemma_wake_independent<W>(m: Map<u64, Slot<W>>, a: u64, b: u64, w: W)
    requires
        a != b,
    ensures
        wake_target(m, a) == (if m.contains_key(a) { m[a].waker } else { None }),
        woken(m, a).contains_key(b) == m.contains_key(b),
        m.contains_key(b) ==> woken(m, a)[b] == m[b],
        m.contains_key(a) ==> (polled(m, a, w).contains_key(b) == m.contains_key(b)),
        m.contains_key(a) && m.contains_key(b) ==> polled(m, a, w)[b] == m[b],
{
}

/// After a poll that found the device ready (and an I/O attempt that found
/// no data), the next poll suspends, the next event wakes its continuation,
/// and the poll after that finds the device ready again: the slot is stuck
/// neither in the ready nor in the pending state.
pub proof fn lemma_edge_rearm<W>(m: Map<u64, Slot<W>>, key: u64, w1: W, w2: W)
    requires
        m.contains_key(key),
        poll_status(m, key) == Status::Ready,
    ensures
        poll_status(polled(m, key, w1), key) == Status::Pending,
        wake_target(polled(polled(m, key, w1), key, w2), key) == Some(w2),
        poll_status(woken(polled(polled(m, key, w1), key, w2), key), key) == Status::Ready,
{
}

} // verus!

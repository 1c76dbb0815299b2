use vstd::prelude::*;

use std::collections::HashMap;

verus! {

/// What a poll found: the device may be tried now, or the task should wait
/// for its continuation to be invoked.
#[derive(Debug, Copy, Clone, PartialEq, Eq, Structural)]
pub enum Status {
    Ready,
    Pending,
}

/// The state of one registration, shared by the task that polls the device
/// and the thread that receives the kernel's events.
///
/// `ready` is true when an event occurred (or is optimistically assumed) that
/// the task has not consumed yet; `waker` is the continuation to invoke at the
/// next event.
#[derive(Debug)]
pub struct Slot<W> {
    /// The OS descriptor that was registered.
    pub device: i32,
    /// Whether the descriptor is closed when it is deregistered.
    pub close: bool,
    /// An event is available and not yet consumed.
    pub ready: bool,
    /// The continuation stored by the last poll.
    pub waker: Option<W>,
}

impl<W> Slot<W> {
    /// A new registration: optimistically ready, with nothing to wake.
    pub open spec fn fresh(device: i32, close: bool) -> Slot<W> {
        Slot { device, close, ready: true, waker: None }
    }

    /// After a poll that stored `w`: the readiness is consumed.
    pub open spec fn armed(self, w: W) -> Slot<W> {
        Slot { device: self.device, close: self.close, ready: false, waker: Some(w) }
    }

    /// After a kernel event: ready, with the continuation taken out.
    pub open spec fn woken(self) -> Slot<W> {
        Slot { device: self.device, close: self.close, ready: true, waker: None }
    }
}

/// The table after a poll of `key` that stored `w`.
pub open spec fn polled<W>(m: Map<u64, Slot<W>>, key: u64, w: W) -> Map<u64, Slot<W>> {
    m.insert(key, m[key].armed(w))
}

/// What a poll of `key` reports.
pub open spec fn poll_status<W>(m: Map<u64, Slot<W>>, key: u64) -> Status {
    if m[key].ready {
        Status::Ready
    } else {
        Status::Pending
    }
}

/// The table after a kernel event tagged with `key`; an event for a key that
/// is not registered changes nothing.
pub open spec fn woken<W>(m: Map<u64, Slot<W>>, key: u64) -> Map<u64, Slot<W>> {
    if m.contains_key(key) {
        m.insert(key, m[key].woken())
    } else {
        m
    }
}

/// The continuation that a kernel event tagged with `key` invokes, if any.
pub open spec fn wake_target<W>(m: Map<u64, Slot<W>>, key: u64) -> Option<W> {
    if m.contains_key(key) {
        m[key].waker
    } else {
        None
    }
}

/// The slot that deregistering `key` hands back, if it was registered.
pub open spec fn removed<W>(m: Map<u64, Slot<W>>, key: u64) -> Option<Slot<W>> {
    if m.contains_key(key) {
        Some(m[key])
    } else {
        None
    }
}

/// The registration table: one slot per registered device, under a key that
/// tags the device's kernel events. Keys are handed out in increasing order
/// and never reused.
#[derive(Debug)]
pub struct Registry<W> {
    table: HashMap<u64, Slot<W>>,
    next: u64,
}

impl<W> Registry<W> {
    /// The registered slots by key.
    pub closed spec fn slots(&self) -> Map<u64, Slot<W>> {
        self.table@
    }

    /// The key that the next registration gets.
    pub closed spec fn next_key(&self) -> u64 {
        self.next
    }

    /// Every registered key was handed out before `next_key`.
    pub open spec fn wf(&self) -> bool {
        forall|k: u64| #[trigger] self.slots().contains_key(k) ==> k < self.next_key()
    }

    /// An empty table.
    pub fn new() -> (r: Self)
        ensures
            r.wf(),
            r.slots() == Map::<u64, Slot<W>>::empty(),
            r.next_key() == 0,
    {
        Registry { table: HashMap::new(), next: 0 }
    }

    /// Register `device`; its slot starts ready, with no continuation.
    /// Fails only when the keys are exhausted.
    pub fn register(&mut self, device: i32, close: bool) -> (r: Option<u64>)
        requires
            old(self).wf(),
        ensures
            final(self).wf(),
            r.is_some() <==> old(self).next_key() < u64::MAX,
            match r {
                Some(key) => {
                    &&& key == old(self).next_key()
                    &&& !old(self).slots().contains_key(key)
                    &&& final(self).slots() == old(self).slots().insert(key, Slot::fresh(device, close))
                    &&& final(self).next_key() == key + 1
                },
                None => {
                    &&& final(self).slots() == old(self).slots()
                    &&& final(self).next_key() == old(self).next_key()
                },
            },
    {
        if self.next == u64::MAX {
            return None;
        }
        let key = self.next;
        self.table.insert(key, Slot { device, close, ready: true, waker: None });
        self.next = key + 1;
        assert forall|k: u64| #[trigger] self.slots().contains_key(k) implies k < self.next_key() by {
            if k != key {
                assert(old(self).slots().contains_key(k));
            }
        }
        Some(key)
    }

    /// Whether `key` is registered.
    pub fn is_registered(&self, key: u64) -> (r: bool)
        ensures
            r == self.slots().contains_key(key),
    {
        self.table.contains_key(&key)
    }

    /// Whether the slot of `key` holds an unconsumed event.
    pub fn is_ready(&self, key: u64) -> (r: bool)
        requires
            self.slots().contains_key(key),
        ensures
            r == self.slots()[key].ready,
    {
        match self.table.get(&key) {
            Some(s) => s.ready,
            None => false,
        }
    }

    /// The number of registered devices.
    pub fn len(&self) -> (r: usize)
        ensures
            r == self.slots().len(),
    {
        self.table.len()
    }

    /// The poll of a task: report whether an event is available and store
    /// `waker` as the continuation for the next event. A ready slot has its
    /// readiness consumed, so that after a fruitless attempt at the I/O
    /// operation the next poll suspends until a new event arrives.
    pub fn poll(&mut self, key: u64, waker: W) -> (r: Status)
        requires
            old(self).wf(),
            old(self).slots().contains_key(key),
        ensures
            final(self).wf(),
            final(self).next_key() == old(self).next_key(),
            r == poll_status(old(self).slots(), key),
            final(self).slots() == polled(old(self).slots(), key, waker),
    {
        let ghost m = self.table@;
        match self.table.remove(&key) {
            Some(s) => {
                let r = if s.ready {
                    Status::Ready
                } else {
                    Status::Pending
                };
                self.table.insert(key, Slot { device: s.device, close: s.close, ready: false, waker: Some(waker) });
                assert(self.table@ =~= polled(m, key, waker));
                r
            },
            None => Status::Pending,
        }
    }

    /// A kernel event tagged with `key`: mark the slot ready and hand back the
    /// stored continuation, which the caller invokes. A key that is no longer
    /// registered is ignored.
    pub fn wake(&mut self, key: u64) -> (r: Option<W>)
        requires
            old(self).wf(),
        ensures
            final(self).wf(),
            final(self).next_key() == old(self).next_key(),
            r == wake_target(old(self).slots(), key),
            final(self).slots() == woken(old(self).slots(), key),
    {
        let ghost m = self.table@;
        match self.table.remove(&key) {
            Some(s) => {
                let Slot { device, close, ready: _, waker } = s;
                self.table.insert(key, Slot { device, close, ready: true, waker: None });
                assert(self.table@ =~= woken(m, key));
                waker
            },
            None => None,
        }
    }

    /// One round of the background thread: `count` is what the kernel wait
    /// returned and `tag` the key of the event it filled in. Only a wait that
    /// delivered exactly one event wakes anything; any other result is a
    /// transient failure after which the thread waits again.
    pub fn on_wait(&mut self, count: i32, tag: u64) -> (r: Option<W>)
        requires
            old(self).wf(),
        ensures
            final(self).wf(),
            final(self).next_key() == old(self).next_key(),
            count == 1 ==> r == wake_target(old(self).slots(), tag) && final(self).slots()
                == woken(old(self).slots(), tag),
            count != 1 ==> r.is_none() && final(self).slots() == old(self).slots(),
    {
        if count == 1 {
            self.wake(tag)
        } else {
            None
        }
    }

    /// Deregister `key`, handing back its slot; `None` when it is not
    /// registered, so that deregistering twice does nothing the second time.
    pub fn deregister(&mut self, key: u64) -> (r: Option<Slot<W>>)
        requires
            old(self).wf(),
        ensures
            final(self).wf(),
            final(self).next_key() == old(self).next_key(),
            r == removed(old(self).slots(), key),
            final(self).slots() == old(self).slots().remove(key),
    {
        self.table.remove(&key)
    }
}

} // verus!

//! Readiness bookkeeping for waking cooperative tasks on OS device events.
//!
//! The masks ([`Watch`], [`Watcher`]) say which readiness conditions a device
//! is registered for. The [`Registry`] is the table that a background polling
//! thread and the foreground tasks share: each registration owns a slot with a
//! readiness flag and an optional stored continuation, addressed by a key that
//! is never reused, so that an event that arrives after deregistration finds
//! nothing instead of another device's slot.

mod laws;
mod registry;
mod watch;
mod watcher;

pub use laws::{
    lemma_deregister_idempotent, lemma_edge_rearm, lemma_pending_wakes_exactly_once,
    lemma_stored_continuation_woken, lemma_wake_independent,
};
pub use registry::{polled, poll_status, removed, wake_target, woken, Registry, Slot, Status};
pub use watch::Watch;
pub use watcher::{
    lemma_watcher_idempotent, lemma_watcher_order_independent, Watcher, EPOLLET, EPOLLIN,
    EPOLLOUT,
};

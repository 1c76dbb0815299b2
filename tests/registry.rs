use smelling_salts::{Registry, Status};

fn registered(device: i32, close: bool) -> (Registry<u32>, u64) {
    let mut registry = Registry::new();
    let key = registry.register(device, close).unwrap();
    (registry, key)
}

#[test]
fn new_registry_is_empty() {
    let registry: Registry<u32> = Registry::new();
    assert_eq!(registry.len(), 0);
    assert!(!registry.is_registered(0));
}

#[test]
fn keys_are_distinct_and_increasing() {
    let mut registry: Registry<u32> = Registry::new();
    let a = registry.register(3, false).unwrap();
    let b = registry.register(4, false).unwrap();
    assert_eq!(a, 0);
    assert_eq!(b, 1);
    assert_eq!(registry.len(), 2);
}

#[test]
fn keys_are_not_reused_after_deregistration() {
    let mut registry: Registry<u32> = Registry::new();
    let a = registry.register(3, false).unwrap();
    registry.deregister(a);
    let b = registry.register(3, false).unwrap();
    assert_ne!(a, b);
    assert!(!registry.is_registered(a));
    assert!(registry.is_registered(b));
}

#[test]
fn fresh_slot_is_optimistically_ready() {
    let (mut registry, key) = registered(7, false);
    assert!(registry.is_ready(key));
    assert_eq!(registry.poll(key, 1), Status::Ready);
    assert!(!registry.is_ready(key));
}

#[test]
fn poll_after_ready_suspends() {
    let (mut registry, key) = registered(7, false);
    assert_eq!(registry.poll(key, 1), Status::Ready);
    assert_eq!(registry.poll(key, 1), Status::Pending);
    assert_eq!(registry.poll(key, 1), Status::Pending);
}

// A continuation stored by a poll is invoked by the next event.
#[test]
fn stored_continuation_is_woken() {
    let (mut registry, key) = registered(7, false);
    assert_eq!(registry.poll(key, 11), Status::Ready);
    assert_eq!(registry.wake(key), Some(11));
    assert!(registry.is_ready(key));
}

// After Pending, one event gives exactly one invocation.
#[test]
fn pending_wakes_exactly_once() {
    let (mut registry, key) = registered(7, false);
    registry.poll(key, 1);
    assert_eq!(registry.poll(key, 22), Status::Pending);
    assert_eq!(registry.wake(key), Some(22));
    assert_eq!(registry.wake(key), None);
}

// Deregistration is idempotent.
#[test]
fn deregister_twice_releases_once() {
    let (mut registry, key) = registered(9, true);
    let first = registry.deregister(key).unwrap();
    assert_eq!(first.device, 9);
    assert!(first.close);
    assert!(registry.deregister(key).is_none());
    assert_eq!(registry.len(), 0);
}

// Events of one device never reach another device's continuation.
#[test]
fn wake_is_independent_between_devices() {
    let mut registry: Registry<u32> = Registry::new();
    let a = registry.register(3, false).unwrap();
    let b = registry.register(4, false).unwrap();
    registry.poll(a, 100);
    registry.poll(b, 200);
    assert_eq!(registry.poll(b, 200), Status::Pending);
    assert_eq!(registry.wake(a), Some(100));
    assert!(!registry.is_ready(b));
    assert_eq!(registry.poll(b, 201), Status::Pending);
    assert_eq!(registry.wake(b), Some(201));
}

// Ready, fruitless attempt, re-suspend, woken again, ready again.
#[test]
fn edge_trigger_rearms() {
    let (mut registry, key) = registered(5, false);
    assert_eq!(registry.poll(key, 1), Status::Ready);
    assert_eq!(registry.poll(key, 2), Status::Pending);
    assert_eq!(registry.wake(key), Some(2));
    assert_eq!(registry.poll(key, 3), Status::Ready);
    assert_eq!(registry.poll(key, 4), Status::Pending);
    assert_eq!(registry.wake(key), Some(4));
}

// A pipe-like input device: ready only once the write's event has arrived.
#[test]
fn input_ready_only_after_event() {
    let (mut registry, key) = registered(10, true);
    // The first poll is optimistic; the read that follows finds nothing.
    assert_eq!(registry.poll(key, 1), Status::Ready);
    // Before the write: the task suspends.
    assert_eq!(registry.poll(key, 1), Status::Pending);
    assert_eq!(registry.poll(key, 1), Status::Pending);
    // The write makes the kernel report the device.
    assert_eq!(registry.on_wait(1, key), Some(1));
    assert_eq!(registry.poll(key, 1), Status::Ready);
}

// Two devices with distinct masks; only the first is triggered.
#[test]
fn second_device_never_woken() {
    let mut registry: Registry<u32> = Registry::new();
    let first = registry.register(20, false).unwrap();
    let second = registry.register(21, false).unwrap();
    registry.poll(first, 1);
    registry.poll(second, 2);
    assert_eq!(registry.poll(first, 1), Status::Pending);
    assert_eq!(registry.poll(second, 2), Status::Pending);
    let mut woken = Vec::new();
    for _ in 0..3 {
        if let Some(w) = registry.on_wait(1, first) {
            woken.push(w);
        }
    }
    assert_eq!(woken, vec![1]);
    assert!(!registry.is_ready(second));
}

// Register and drop at once: the entry is gone and the close flag comes back.
#[test]
fn register_then_deregister_without_poll() {
    let mut registry: Registry<u32> = Registry::new();
    let key = registry.register(30, true).unwrap();
    let slot = registry.deregister(key).unwrap();
    assert_eq!(slot.device, 30);
    assert!(slot.close);
    assert!(slot.waker.is_none());
    assert!(!registry.is_registered(key));
    assert_eq!(registry.len(), 0);
}

// An event with no stored continuation sets the flag and invokes nothing.
#[test]
fn event_before_any_poll() {
    let (mut registry, key) = registered(40, false);
    assert_eq!(registry.wake(key), None);
    assert!(registry.is_ready(key));
    assert_eq!(registry.poll(key, 5), Status::Ready);
}

#[test]
fn event_for_unregistered_key_is_ignored() {
    let (mut registry, key) = registered(50, false);
    registry.poll(key, 1);
    assert_eq!(registry.wake(key + 1), None);
    assert!(!registry.is_ready(key));
    registry.deregister(key);
    assert_eq!(registry.wake(key), None);
    assert_eq!(registry.len(), 0);
}

#[test]
fn failed_wait_wakes_nothing() {
    let (mut registry, key) = registered(60, false);
    registry.poll(key, 1);
    assert_eq!(registry.on_wait(-1, key), None);
    assert_eq!(registry.on_wait(0, key), None);
    assert!(!registry.is_ready(key));
    assert_eq!(registry.on_wait(1, key), Some(1));
}

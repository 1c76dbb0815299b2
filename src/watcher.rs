use vstd::prelude::*;

verus! {

/// Readiness bit: the device has input available.
pub const EPOLLIN: u32 = 0x0001;

/// Readiness bit: the device accepts output.
pub const EPOLLOUT: u32 = 0x0004;

/// Edge-triggered delivery: one event per transition to ready.
pub const EPOLLET: u32 = 0x8000_0000;

/// Which events to watch for to trigger a wake-up.
///
/// Every value carries the edge-triggered bit: the constructors set it and the
/// builders only add bits.
#[derive(Debug, Copy, Clone)]
pub struct Watcher(pub(crate) u32);

impl Watcher {
    /// The raw bits, as handed to the kernel.
    pub closed spec fn spec_bits(self) -> u32 {
        self.0
    }

    /// The edge-triggered bit is set.
    pub open spec fn edge_triggered(self) -> bool {
        self.spec_bits() & EPOLLET == EPOLLET
    }

    /// Input readiness is watched for.
    pub open spec fn watches_input(self) -> bool {
        self.spec_bits() & EPOLLIN == EPOLLIN
    }

    /// Output readiness is watched for.
    pub open spec fn watches_output(self) -> bool {
        self.spec_bits() & EPOLLOUT == EPOLLOUT
    }

    /// Create an empty Watcher (requesting nothing but edge-triggered delivery).
    pub fn new() -> (r: Watcher)
        ensures
            r.spec_bits() == EPOLLET,
            r.edge_triggered(),
            !r.watches_input(),
            !r.watches_output(),
    {
        let r = Watcher(EPOLLET);
        assert(EPOLLET & EPOLLET == EPOLLET && EPOLLET & EPOLLIN != EPOLLIN
            && EPOLLET & EPOLLOUT != EPOLLOUT) by (bit_vector);
        r
    }

    /// Create a Watcher from a raw epoll bitmask; the edge-triggered bit is
    /// forced on.
    pub fn from_raw(raw: u32) -> (r: Watcher)
        ensures
            r.spec_bits() == EPOLLET | raw,
            r.edge_triggered(),
    {
        let r = Watcher(EPOLLET | raw);
        assert((EPOLLET | raw) & EPOLLET == EPOLLET) by (bit_vector);
        r
    }

    /// Watch for input from the device.
    pub fn input(self) -> (r: Self)
        ensures
            r.spec_bits() == self.spec_bits() | EPOLLIN,
            r.watches_input(),
            r.watches_output() == self.watches_output(),
            r.edge_triggered() == self.edge_triggered(),
    {
        let x = self.0;
        let r = Watcher(x | EPOLLIN);
        assert((x | EPOLLIN) & EPOLLIN == EPOLLIN) by (bit_vector);
        assert(((x | EPOLLIN) & EPOLLOUT == EPOLLOUT) == (x & EPOLLOUT == EPOLLOUT))
            by (bit_vector);
        assert(((x | EPOLLIN) & EPOLLET == EPOLLET) == (x & EPOLLET == EPOLLET)) by (bit_vector);
        r
    }

    /// Watch for the device to be ready for output.
    pub fn output(self) -> (r: Self)
        ensures
            r.spec_bits() == self.spec_bits() | EPOLLOUT,
            r.watches_output(),
            r.watches_input() == self.watches_input(),
            r.edge_triggered() == self.edge_triggered(),
    {
        let x = self.0;
        let r = Watcher(x | EPOLLOUT);
        assert((x | EPOLLOUT) & EPOLLOUT == EPOLLOUT) by (bit_vector);
        assert(((x | EPOLLOUT) & EPOLLIN == EPOLLIN) == (x & EPOLLIN == EPOLLIN))
            by (bit_vector);
        assert(((x | EPOLLOUT) & EPOLLET == EPOLLET) == (x & EPOLLET == EPOLLET))
            by (bit_vector);
        r
    }

    /// The raw bits, as handed to the kernel.
    pub fn bits(self) -> (r: u32)
        ensures
            r == self.spec_bits(),
    {
        self.0
    }
}

impl Default for Watcher {
    fn default() -> (r: Self)
        ensures
            r.spec_bits() == EPOLLET,
    {
        Self::new()
    }
}

/// Adding input or output is idempotent.
pub proof fn lemma_watcher_idempotent(w: Watcher)
    ensures
        (w.spec_bits() | EPOLLIN) | EPOLLIN == w.spec_bits() | EPOLLIN,
        (w.spec_bits() | EPOLLOUT) | EPOLLOUT == w.spec_bits() | EPOLLOUT,
{
    let x = w.spec_bits();
    assert((x | EPOLLIN) | EPOLLIN == x | EPOLLIN) by (bit_vector);
    assert((x | EPOLLOUT) | EPOLLOUT == x | EPOLLOUT) by (bit_vector);
}

/// Adding input and output gives the same mask in either order.
pub proof fn lemma_watcher_order_independent(w: Watcher)
    ensures
        (w.spec_bits() | EPOLLIN) | EPOLLOUT == (w.spec_bits() | EPOLLOUT) | EPOLLIN,
{
    let x = w.spec_bits();
    assert((x | EPOLLIN) | EPOLLOUT == (x | EPOLLOUT) | EPOLLIN) by (bit_vector);
}

} // verus!

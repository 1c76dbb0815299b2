use vstd::prelude::*;

use crate::watcher::{EPOLLIN, EPOLLOUT};

verus! {

/// A bitfield specifying which events to watch for.
#[derive(Debug, Copy, Clone, PartialEq, Eq, Structural)]
pub struct Watch(pub(crate) u32);

impl Watch {
    /// The raw bits, as handed to the kernel.
    pub closed spec fn spec_bits(self) -> u32 {
        self.0
    }

    /// Watch for no events; `Watch::empty().input()` watches for input only.
    pub fn empty() -> (r: Self)
        ensures
            r.spec_bits() == 0,
    {
        Watch(0)
    }

    /// Add output to events that are being watched for.
    pub fn output(self) -> (r: Self)
        ensures
            r.spec_bits() == self.spec_bits() | EPOLLOUT,
    {
        Watch(self.0 | EPOLLOUT)
    }

    /// Add input to events that are being watched for.
    pub fn input(self) -> (r: Self)
        ensures
            r.spec_bits() == self.spec_bits() | EPOLLIN,
    {
        Watch(self.0 | EPOLLIN)
    }

    /// Construct a watch from a raw bitfield of the platform's event types.
    pub fn from_raw(watch: u32) -> (r: Self)
        ensures
            r.spec_bits() == watch,
    {
        Watch(watch)
    }

    /// The raw bits, as handed to the kernel.
    pub fn bits(self) -> (r: u32)
        ensures
            r == self.spec_bits(),
    {
        self.0
    }
}

} // verus!

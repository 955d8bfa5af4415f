//! Synchronization fences: opaque completion handles that cross the
//! producer/queue boundary exactly once.
//!
//! A fence is an owned, non-copyable resource. Its view is the raw handle it
//! carries: a non-negative number for a real handle, `-1` for "no fence".
//! Because the type cannot be cloned, a handle held by a `Fence` has a single
//! owner until `take` or `into_raw` consumes it; the embedder closes a raw
//! handle it receives exactly once.

use vstd::prelude::*;

verus! {

/// The raw value a fence carries when it holds no handle.
pub const NO_FENCE: i32 = -1;

/// An owned synchronization handle, or "none".
#[derive(Debug)]
pub struct Fence {
    fd: i32,
}

impl View for Fence {
    type V = int;

    closed spec fn view(&self) -> int {
        self.fd as int
    }
}

impl Fence {
    /// Whether a fence view carries a real handle.
    pub open spec fn spec_is_some(v: int) -> bool {
        v >= 0
    }

    /// A fence carrying no handle.
    pub fn none() -> (r: Fence)
        ensures
            r@ == NO_FENCE as int,
    {
        Fence { fd: NO_FENCE }
    }

    /// Wraps a raw handle received from a device or a producer. Any negative
    /// value stands for "no fence" and is kept as given.
    pub fn from_raw(fd: i32) -> (r: Fence)
        ensures
            r@ == fd as int,
    {
        Fence { fd }
    }

    /// Whether this fence carries a real handle.
    pub fn is_some(&self) -> (r: bool)
        ensures
            r == Fence::spec_is_some(self@),
    {
        self.fd >= 0
    }

    /// Moves the handle out, leaving "no fence" behind: the one way to
    /// separate a fence from the slot or structure that owns it.
    pub fn take(&mut self) -> (r: Fence)
        ensures
            r@ == old(self)@,
            final(self)@ == NO_FENCE as int,
    {
        let fd = self.fd;
        self.fd = NO_FENCE;
        Fence { fd }
    }

    /// Consumes the fence, surrendering the raw handle to the embedder, which
    /// from then on is its sole owner.
    pub fn into_raw(self) -> (r: i32)
        ensures
            r as int == self@,
    {
        self.fd
    }
}

} // verus!

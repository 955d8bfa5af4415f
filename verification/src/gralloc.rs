//! Allocator bookkeeping: which buffer handles are live, and the guarantee
//! that every handle is released back to the device at most once.
//!
//! The device call that reserves graphics memory is the embedder's; this
//! allocator names each allocation with a fresh handle, records it live, and
//! retires it on `free`. Its view is the sequence of live handles.

use vstd::prelude::*;
use crate::gonk_gfx::GonkNativeWindowBuffer;

verus! {

/// The allocator's book of live handles. Handles are issued in increasing
/// order starting at 1, so a freed handle is never reissued and 0 can stand
/// for "no handle" in display lists.
#[derive(Debug)]
pub struct Allocator {
    next_handle: u64,
    live: Vec<u64>,
}

impl View for Allocator {
    type V = Seq<u64>;

    closed spec fn view(&self) -> Seq<u64> {
        self.live@
    }
}

impl Allocator {
    /// The next handle to be issued; every handle ever issued is below it.
    pub closed spec fn spec_next(self) -> int {
        self.next_handle as int
    }

    pub open spec fn wf(self) -> bool {
        &&& self@.no_duplicates()
        &&& 1 <= self.spec_next()
        &&& forall|i: int| 0 <= i < self@.len() ==> #[trigger] self@[i] < self.spec_next()
    }

    /// Whether `n` more handles can still be issued without exhausting the
    /// handle space.
    pub open spec fn can_allocate(self, n: int) -> bool {
        self.spec_next() + n <= u64::MAX as int
    }

    pub fn new() -> (r: Allocator)
        ensures
            r@ == Seq::<u64>::empty(),
            r.spec_next() == 1,
            r.wf(),
    {
        Allocator { next_handle: 1, live: Vec::new() }
    }

    /// How many handles are currently live.
    pub fn live_count(&self) -> (n: usize)
        ensures
            n == self@.len(),
    {
        self.live.len()
    }

    /// Whether `handle` is currently live.
    #[verifier::loop_isolation(false)]
    pub fn is_live(&self, handle: u64) -> (r: bool)
        ensures
            r == self@.contains(handle),
    {
        let n = self.live.len();
        let mut i: usize = 0;
        while i < n
            invariant
                n == self@.len(),
                i <= n,
                forall|k: int| 0 <= k < i ==> self@[k] != handle,
            decreases n - i,
        {
            if self.live[i] == handle {
                return true;
            }
            i = i + 1;
        }
        false
    }

    /// Whether `n` more handles can still be issued.
    pub fn has_capacity(&self, n: u64) -> (b: bool)
        ensures
            b == self.can_allocate(n as int),
    {
        self.next_handle <= u64::MAX - n
    }

    /// Issues a fresh handle for a buffer of the given shape and records it
    /// live. The embedder pairs the handle with the memory the device
    /// reserved; `stride` is the row stride the device reported.
    pub fn allocate(&mut self, width: i32, height: i32, format: i32, usage: i32, stride: i32) -> (r:
        GonkNativeWindowBuffer)
        requires
            old(self).wf(),
            old(self).can_allocate(1),
        ensures
            final(self).wf(),
            r == (GonkNativeWindowBuffer {
                width,
                height,
                stride,
                format,
                usage,
                handle: r.handle,
                count: 1,
            }),
            !old(self)@.contains(r.handle),
            r.handle as int == old(self).spec_next(),
            final(self)@ == old(self)@.push(r.handle),
            final(self).spec_next() == old(self).spec_next() + 1,
    {
        let ghost s0 = self.live@;
        let handle = self.next_handle;
        self.next_handle = self.next_handle + 1;
        self.live.push(handle);
        proof {
            assert(!s0.contains(handle));
            assert forall|i: int, j: int|
                0 <= i < self@.len() && 0 <= j < self@.len() && i != j implies self@[i]
                != self@[j] by {
                if i < s0.len() && j < s0.len() {
                    assert(s0[i] != s0[j]);
                }
            }
        }
        GonkNativeWindowBuffer::new(width, height, format, usage, handle, stride)
    }

    /// Retires a live handle. Returns whether the handle was live: a second
    /// `free` of the same handle finds it gone, reports `false`, and changes
    /// nothing, so no handle is ever released to the device twice.
    #[verifier::loop_isolation(false)]
    pub fn free(&mut self, handle: u64) -> (r: bool)
        requires
            old(self).wf(),
        ensures
            final(self).wf(),
            r == old(self)@.contains(handle),
            final(self)@ == old(self)@.remove_value(handle),
            !final(self)@.contains(handle),
            forall|h: u64| h != handle ==> old(self)@.contains(h) == #[trigger] final(self)@.contains(
                h,
            ),
            r ==> final(self)@.len() + 1 == old(self)@.len(),
            !r ==> final(self)@ == old(self)@,
            final(self).spec_next() == old(self).spec_next(),
    {
        proof {
            old(self)@.index_of_first_ensures(handle);
        }
        let ghost s0 = self.live@;
        let n = self.live.len();
        let mut i: usize = 0;
        while i < n
            invariant
                n == self@.len(),
                self@ == s0,
                self.spec_next() == old(self).spec_next(),
                i <= n,
                forall|k: int| 0 <= k < i ==> s0[k] != handle,
            decreases n - i,
        {
            if self.live[i] == handle {
                self.live.remove(i);
                proof {
                    s0.remove_ensures(i as int);
                    assert(s0.contains(handle));
                    let s1 = self.live@;
                    assert forall|h: u64| s1.contains(h) implies h == handle || s0.contains(
                        h,
                    ) by {
                        let k = choose|k: int| 0 <= k < s1.len() && s1[k] == h;
                        if k < i {
                            assert(s0[k] == h);
                        } else {
                            assert(s0[k + 1] == h);
                        }
                    }
                    assert forall|h: u64| h != handle && s0.contains(h) implies s1.contains(
                        h,
                    ) by {
                        let k = choose|k: int| 0 <= k < s0.len() && s0[k] == h;
                        if k < i {
                            assert(s1[k] == h);
                        } else {
                            assert(k > i);
                            assert(s1[k - 1] == h);
                        }
                    }
                    assert(!s1.contains(handle)) by {
                        if s1.contains(handle) {
                            let k = choose|k: int| 0 <= k < s1.len() && s1[k] == handle;
                            if k < i {
                                assert(s0[k] == handle);
                            } else {
                                assert(s0[k + 1] == handle);
                            }
                        }
                    }
                    assert forall|a: int, b: int|
                        0 <= a < s1.len() && 0 <= b < s1.len() && a != b implies s1[a]
                        != s1[b] by {
                        let a0: int = if a < i { a } else { a + 1 };
                        let b0: int = if b < i { b } else { b + 1 };
                        assert(s1[a] == s0[a0]);
                        assert(s1[b] == s0[b0]);
                    }
                    assert forall|k: int| 0 <= k < s1.len() implies s1[k]
                        < old(self).spec_next() by {
                        if k < i {
                            assert(s1[k] == s0[k]);
                        } else {
                            assert(s1[k] == s0[k + 1]);
                        }
                    }
                    assert(s0.index_of_first(handle) == Some(i as int));
                    assert(s0.remove_value(handle) == s1);
                }
                return true;
            }
            i = i + 1;
        }
        proof {
            assert(!s0.contains(handle)) by {
                if s0.contains(handle) {
                    let k = choose|k: int| 0 <= k < s0.len() && s0[k] == handle;
                }
            }
            assert(s0.remove_value(handle) == s0);
        }
        false
    }
}

/// LAW (no double release): releasing the same handle a second time does
/// nothing. Over a duplicate-free sequence of live handles — as `free`'s
/// contract describes the allocator — removing a handle's occurrence leaves
/// a sequence that no longer contains it, so removing it again is the
/// identity: a second `free` of the same handle reports `false` and releases
/// nothing to the device.
pub proof fn lemma_free_twice(live: Seq<u64>, h: u64)
    requires
        live.no_duplicates(),
    ensures
        !live.remove_value(h).contains(h),
        live.remove_value(h).remove_value(h) == live.remove_value(h),
{
    live.index_of_first_ensures(h);
    match live.index_of_first(h) {
        Some(i) => {
            let s1 = live.remove(i);
            live.remove_ensures(i);
            assert(!s1.contains(h)) by {
                if s1.contains(h) {
                    let k = choose|k: int| 0 <= k < s1.len() && s1[k] == h;
                    if k < i {
                        assert(live[k] == h);
                    } else {
                        assert(live[k + 1] == h);
                    }
                }
            }
            s1.index_of_first_ensures(h);
        }
        None => {}
    }
}

} // verus!

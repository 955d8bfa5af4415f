//! The buffer queue: a two-slot swap chain that hands drawable buffers to a
//! producer and, when a filled buffer comes back, turns it into a display
//! list for the compositor.
//!
//! Ownership protocol: a buffer held in a slot belongs to the queue alone;
//! `dequeue_buffer` transfers it wholly to the producer, and `queue_buffer` /
//! `cancel_buffer` transfer it back. The queue never tracks a checked-out
//! buffer: the producer is trusted to return the object it was given, which
//! is why at most one buffer may be checked out at a time.

use vstd::prelude::*;
use crate::fence::{Fence, NO_FENCE};
use crate::gralloc::Allocator;
use crate::hwc::{build_display_contents, hwc_display_contents, spec_display_contents};

verus! {

pub const GRALLOC_USAGE_HW_TEXTURE: i32 = 0x00000100;
pub const GRALLOC_USAGE_HW_RENDER: i32 = 0x00000200;
pub const GRALLOC_USAGE_HW_2D: i32 = 0x00000400;
pub const GRALLOC_USAGE_HW_COMPOSER: i32 = 0x00000800;
pub const GRALLOC_USAGE_HW_FB: i32 = 0x00001000;

/// Four characters packed big-endian into a word, as the native object
/// headers tag themselves.
pub open spec fn magic_code(a: char, b: char, c: char, d: char) -> u32 {
    ((a as u32) << 24) | ((b as u32) << 16) | ((c as u32) << 8) | (d as u32)
}

/// The common header every native graphics object starts with: a magic tag
/// and a version word.
#[derive(Clone, Copy, PartialEq, Eq, Structural, Debug)]
pub struct ANativeBase {
    pub magic: u32,
    pub version: u32,
}

impl ANativeBase {
    /// Packs the four tag characters of an object header.
    pub fn magic(a: char, b: char, c: char, d: char) -> (r: u32)
        ensures
            r == magic_code(a, b, c, d),
    {
        ((a as u32) << 24) | ((b as u32) << 16) | ((c as u32) << 8) | (d as u32)
    }
}

/// An allocated drawable buffer: its geometry, the allocator handle that
/// names its backing memory, the row stride the allocator chose, and a
/// reference count.
///
/// The count models shared ownership at the system boundary; a buffer is
/// returned to the allocator exactly once, when the count reaches zero.
#[derive(Debug)]
pub struct GonkNativeWindowBuffer {
    pub width: i32,
    pub height: i32,
    pub stride: i32,
    pub format: i32,
    pub usage: i32,
    pub handle: u64,
    pub count: i32,
}

impl GonkNativeWindowBuffer {
    /// A freshly allocated buffer, owned by its creator alone.
    pub fn new(width: i32, height: i32, format: i32, usage: i32, handle: u64, stride: i32) -> (r:
        GonkNativeWindowBuffer)
        ensures
            r == (GonkNativeWindowBuffer { width, height, stride, format, usage, handle, count: 1 }),
    {
        GonkNativeWindowBuffer { width, height, stride, format, usage, handle, count: 1 }
    }

    /// Records one more owner of this buffer.
    pub fn inc_ref(&mut self)
        requires
            old(self).count < i32::MAX,
        ensures
            *final(self) == (GonkNativeWindowBuffer { count: (old(self).count + 1) as i32, ..*old(self) }),
    {
        self.count = self.count + 1;
    }

    /// Records that one owner let go; reports whether the buffer is now
    /// unreferenced and must be returned to its allocator.
    pub fn dec_ref(&mut self) -> (now_free: bool)
        requires
            old(self).count >= 1,
        ensures
            *final(self) == (GonkNativeWindowBuffer { count: (old(self).count - 1) as i32, ..*old(self) }),
            now_free == (old(self).count == 1),
    {
        self.count = self.count - 1;
        self.count == 0
    }
}

pub const NATIVE_WINDOW_WIDTH: i32 = 0;
pub const NATIVE_WINDOW_HEIGHT: i32 = 1;
pub const NATIVE_WINDOW_FORMAT: i32 = 2;
pub const NATIVE_WINDOW_SET_CROP: i32 = 3;
pub const NATIVE_WINDOW_DEFAULT_WIDTH: i32 = 6;
pub const NATIVE_WINDOW_DEFAULT_HEIGHT: i32 = 7;
pub const NATIVE_WINDOW_TRANSFORM_HINT: i32 = 8;
pub const NATIVE_WINDOW_CONSUMER_USAGE_BITS: i32 = 10;
pub const NATIVE_WINDOW_DEFAULT_DATASPACE: i32 = 12;
pub const NATIVE_WINDOW_BUFFER_AGE: i32 = 13;

/// The errors the queue reports to its producer.
#[derive(Clone, Copy, PartialEq, Eq, Structural, Debug)]
pub enum QueueError {
    /// Both slots are empty, or only the most recently queued slot holds a
    /// buffer: backpressure, the producer retries later.
    NoBufferAvailable,
    /// No slot is empty: the producer queued or canceled without a prior
    /// dequeue.
    QueueFull,
}

/// A rejected `queue_buffer` or `cancel_buffer`: the buffer and fence come
/// back to the caller, whose property they remain.
#[derive(Debug)]
pub struct QueueRejected {
    pub error: QueueError,
    pub buf: GonkNativeWindowBuffer,
    pub fence: Fence,
}

/// What a successful `queue_buffer` asks of the embedder: submit `contents`
/// to the compositor's `prepare` and `set` entry points, then store the
/// release fence that comes back into `slot` with `finish_frame`.
#[derive(Debug)]
pub struct FrameSubmission {
    pub slot: usize,
    pub contents: hwc_display_contents,
}

/// A slot's occupant: a buffer owned by the queue and the release fence to
/// hand out with it on the next dequeue.
#[derive(Debug)]
pub struct SlotEntry {
    pub buf: GonkNativeWindowBuffer,
    pub fence: Fence,
}

/// The mathematical image of an occupied slot: the buffer value and the raw
/// fence handle beside it.
pub struct HeldSlot {
    pub buf: GonkNativeWindowBuffer,
    pub fence: int,
}

/// The mathematical state of a buffer queue: its frame configuration, its
/// external reference count, the index of the most recently queued slot
/// (`-1` before the first queue), and the two slots.
#[verifier::ext_equal]
pub struct QueueModel {
    pub width: i32,
    pub height: i32,
    pub format: i32,
    pub usage: i32,
    pub count: i32,
    pub last_idx: int,
    pub slots: Seq<Option<HeldSlot>>,
}

impl QueueModel {
    pub open spec fn wf(self) -> bool {
        &&& self.slots.len() == 2
        &&& -1 <= self.last_idx <= 1
        &&& (self.slots[0] matches Some(e) ==> e.buf.count == 1)
        &&& (self.slots[1] matches Some(e) ==> e.buf.count == 1)
        &&& ((self.slots[0] is Some && self.slots[1] is Some)
            ==> self.slots[0]->Some_0.buf.handle != self.slots[1]->Some_0.buf.handle)
    }

    /// Whether some slot holds a buffer with this allocator handle.
    pub open spec fn holds_handle(self, handle: u64) -> bool {
        ||| (self.slots[0] matches Some(e) && e.buf.handle == handle)
        ||| (self.slots[1] matches Some(e) && e.buf.handle == handle)
    }

    /// The slot the next dequeue takes: the first occupied slot other than
    /// the most recently queued one.
    pub open spec fn eligible_slot(self) -> Option<int> {
        if self.last_idx != 0 && self.slots[0] is Some {
            Some(0int)
        } else if self.last_idx != 1 && self.slots[1] is Some {
            Some(1int)
        } else {
            None
        }
    }

    /// The slot the next queue or cancel fills: the first empty one.
    pub open spec fn first_empty(self) -> Option<int> {
        if self.slots[0] is None {
            Some(0int)
        } else if self.slots[1] is None {
            Some(1int)
        } else {
            None
        }
    }

    /// The state after a dequeue from slot `i`: the slot is cleared, and
    /// with it the fence it held; nothing else moves.
    pub open spec fn dequeued(self, i: int) -> QueueModel {
        QueueModel { slots: self.slots.update(i, None), ..self }
    }

    /// The state after a buffer is queued into slot `i`: the slot holds the
    /// buffer with no fence yet, and `i` becomes the most recently queued
    /// slot.
    pub open spec fn queued(self, buf: GonkNativeWindowBuffer, i: int) -> QueueModel {
        QueueModel {
            last_idx: i,
            slots: self.slots.update(i, Some(HeldSlot { buf, fence: NO_FENCE as int })),
            ..self
        }
    }

    /// The state after a buffer is canceled back into slot `i`: as `queued`,
    /// but the most recently queued slot does not change, since nothing was
    /// submitted for display.
    pub open spec fn canceled(self, buf: GonkNativeWindowBuffer, i: int) -> QueueModel {
        QueueModel {
            slots: self.slots.update(i, Some(HeldSlot { buf, fence: NO_FENCE as int })),
            ..self
        }
    }

    /// The state after the release fence for slot `i`'s buffer arrives.
    pub open spec fn with_fence(self, i: int, fence: int) -> QueueModel {
        QueueModel {
            slots: self.slots.update(i, Some(HeldSlot { buf: self.slots[i]->Some_0.buf, fence })),
            ..self
        }
    }
}

/// LAW (no producer/compositor aliasing): from any well-formed queue state,
/// the slot a dequeue takes is never the most recently queued one, so the
/// buffer handed to the producer never shares a handle with the buffer the
/// compositor was last given.
pub proof fn lemma_dequeue_avoids_last_queued(m: QueueModel)
    requires
        m.wf(),
    ensures
        m.eligible_slot() matches Some(j) ==> j != m.last_idx,
        (m.eligible_slot() is Some && 0 <= m.last_idx && m.slots[m.last_idx] is Some)
            ==> m.slots[m.eligible_slot()->Some_0]->Some_0.buf.handle
                != m.slots[m.last_idx]->Some_0.buf.handle,
{
}

/// LAW (the skip-last-slot rule): after `queue_buffer` places a buffer in
/// slot `i`, no sequence of dequeues returns that buffer. The next dequeue,
/// if any buffer is eligible, takes the other slot and yields a buffer with
/// a different handle; and once that slot is cleared too, dequeue reports
/// that nothing is available rather than touch slot `i`. Only a later queue
/// or cancel of a different buffer can make slot `i` eligible again.
pub proof fn lemma_queue_then_dequeue_differs(m: QueueModel, buf: GonkNativeWindowBuffer, i: int)
    requires
        m.wf(),
        buf.count == 1,
        !m.holds_handle(buf.handle),
        m.first_empty() == Some(i),
    ensures
        m.queued(buf, i).wf(),
        m.queued(buf, i).eligible_slot() matches Some(j) ==> j != i && m.queued(
            buf,
            i,
        ).slots[j]->Some_0.buf.handle != buf.handle,
        m.queued(buf, i).eligible_slot() matches Some(j) ==> m.queued(buf, i).dequeued(
            j,
        ).eligible_slot() is None,
        m.queued(buf, i).eligible_slot() is None ==> m.queued(buf, i).dequeued(
            1 - i,
        ).eligible_slot() is None,
{
    assert(m.queued(buf, i).slots[i] == Some(HeldSlot { buf, fence: NO_FENCE as int }));
}

/// The buffer queue: a two-slot swap chain between one producer and the
/// compositor. Its view is a `QueueModel`.
#[derive(Debug)]
pub struct GonkNativeWindow {
    width: i32,
    height: i32,
    format: i32,
    usage: i32,
    count: i32,
    last_idx: i32,
    slot0: Option<SlotEntry>,
    slot1: Option<SlotEntry>,
}

/// The model of one slot's contents.
pub open spec fn slot_view(s: Option<SlotEntry>) -> Option<HeldSlot> {
    match s {
        Option::None => Option::None,
        Option::Some(e) => Option::Some(HeldSlot { buf: e.buf, fence: e.fence@ }),
    }
}

impl View for GonkNativeWindow {
    type V = QueueModel;

    closed spec fn view(&self) -> QueueModel {
        QueueModel {
            width: self.width,
            height: self.height,
            format: self.format,
            usage: self.usage,
            count: self.count,
            last_idx: self.last_idx as int,
            slots: seq![slot_view(self.slot0), slot_view(self.slot1)],
        }
    }
}

impl GonkNativeWindow {
    /// A fresh queue for a `width` by `height` window: both slots empty, no
    /// slot marked as recently queued, format unset, one external owner.
    pub fn new(width: i32, height: i32, usage: i32) -> (r: GonkNativeWindow)
        ensures
            r@ == (QueueModel {
                width,
                height,
                format: 0,
                usage,
                count: 1,
                last_idx: -1,
                slots: seq![None::<HeldSlot>, None::<HeldSlot>],
            }),
            r@.wf(),
    {
        let r = GonkNativeWindow {
            width,
            height,
            format: 0,
            usage,
            count: 1,
            last_idx: -1,
            slot0: None,
            slot1: None,
        };
        proof {
            assert(r@ =~= (QueueModel {
                width,
                height,
                format: 0,
                usage,
                count: 1,
                last_idx: -1,
                slots: seq![None::<HeldSlot>, None::<HeldSlot>],
            }));
        }
        r
    }

    /// Whether some slot holds a buffer with this allocator handle: what a
    /// producer hands back must not collide with a held buffer.
    pub fn holds_handle(&self, handle: u64) -> (r: bool)
        ensures
            r == self@.holds_handle(handle),
    {
        let in0 = match &self.slot0 {
            Some(e) => e.buf.handle == handle,
            None => false,
        };
        let in1 = match &self.slot1 {
            Some(e) => e.buf.handle == handle,
            None => false,
        };
        in0 || in1
    }

    /// The allocator handles currently held in the two slots.
    pub fn slot_handles(&self) -> (r: (Option<u64>, Option<u64>))
        ensures
            r.0 == (if self@.slots[0] is Some {
                Some(self@.slots[0]->Some_0.buf.handle)
            } else {
                None::<u64>
            }),
            r.1 == (if self@.slots[1] is Some {
                Some(self@.slots[1]->Some_0.buf.handle)
            } else {
                None::<u64>
            }),
    {
        let h0 = match &self.slot0 {
            Some(e) => Some(e.buf.handle),
            None => None,
        };
        let h1 = match &self.slot1 {
            Some(e) => Some(e.buf.handle),
            None => None,
        };
        (h0, h1)
    }

    /// Hands a buffer to the producer: takes the first occupied slot other
    /// than the most recently queued one, clears it, and returns its buffer
    /// together with the release fence stored beside it (the slot keeps
    /// neither). Fails with `NoBufferAvailable`, changing nothing, when no
    /// such slot is occupied; this never blocks, the producer retries.
    pub fn dequeue_buffer(&mut self) -> (r: Result<(GonkNativeWindowBuffer, Fence), QueueError>)
        requires
            old(self)@.wf(),
        ensures
            final(self)@.wf(),
            old(self)@.eligible_slot() is None ==> r == Err::<
                (GonkNativeWindowBuffer, Fence),
                QueueError,
            >(QueueError::NoBufferAvailable) && final(self)@ == old(self)@,
            old(self)@.eligible_slot() matches Some(i) ==> ({
                &&& r is Ok
                &&& r->Ok_0.0 == old(self)@.slots[i]->Some_0.buf
                &&& r->Ok_0.1@ == old(self)@.slots[i]->Some_0.fence
                &&& final(self)@ == old(self)@.dequeued(i)
            }),
            (r is Ok && 0 <= old(self)@.last_idx && old(self)@.slots[old(self)@.last_idx] is Some)
                ==> r->Ok_0.0.handle != old(self)@.slots[old(self)@.last_idx]->Some_0.buf.handle,
    {
        if self.last_idx != 0 && self.slot0.is_some() {
            let entry = self.slot0.take().unwrap();
            proof {
                assert(self@ =~= old(self)@.dequeued(0));
            }
            Ok((entry.buf, entry.fence))
        } else if self.last_idx != 1 && self.slot1.is_some() {
            let entry = self.slot1.take().unwrap();
            proof {
                assert(self@ =~= old(self)@.dequeued(1));
            }
            Ok((entry.buf, entry.fence))
        } else {
            Err(QueueError::NoBufferAvailable)
        }
    }

    /// Takes a filled buffer back from the producer for display: stores it
    /// in the first empty slot with no fence yet, marks that slot as the
    /// most recently queued, and returns the display list the embedder must
    /// submit, carrying the producer's acquire fence. Fails with `QueueFull`,
    /// returning buffer and fence to the caller and changing nothing, if no
    /// slot is empty — the producer queued without a prior dequeue.
    pub fn queue_buffer(&mut self, buf: GonkNativeWindowBuffer, fence: Fence) -> (r: Result<
        FrameSubmission,
        QueueRejected,
    >)
        requires
            old(self)@.wf(),
            buf.count == 1,
            !old(self)@.holds_handle(buf.handle),
        ensures
            final(self)@.wf(),
            old(self)@.first_empty() matches Some(i) ==> ({
                &&& r is Ok
                &&& r->Ok_0.slot == i
                &&& r->Ok_0.contents == spec_display_contents(
                    buf.width,
                    buf.height,
                    buf.handle,
                    fence@ as i32,
                )
                &&& final(self)@ == old(self)@.queued(buf, i)
            }),
            old(self)@.first_empty() is None ==> ({
                &&& r is Err
                &&& r->Err_0.error == QueueError::QueueFull
                &&& r->Err_0.buf == buf
                &&& r->Err_0.fence@ == fence@
                &&& final(self)@ == old(self)@
            }),
    {
        if self.slot0.is_none() {
            self.last_idx = 0;
            let acquire = fence.into_raw();
            let contents = build_display_contents(buf.width, buf.height, buf.handle, acquire);
            self.slot0 = Some(SlotEntry { buf, fence: Fence::none() });
            proof {
                assert(self@ =~= old(self)@.queued(buf, 0));
            }
            Ok(FrameSubmission { slot: 0, contents })
        } else if self.slot1.is_none() {
            self.last_idx = 1;
            let acquire = fence.into_raw();
            let contents = build_display_contents(buf.width, buf.height, buf.handle, acquire);
            self.slot1 = Some(SlotEntry { buf, fence: Fence::none() });
            proof {
                assert(self@ =~= old(self)@.queued(buf, 1));
            }
            Ok(FrameSubmission { slot: 1, contents })
        } else {
            Err(QueueRejected { error: QueueError::QueueFull, buf, fence })
        }
    }

    /// Takes a buffer back without displaying it: stores it in the first
    /// empty slot with no fence, leaves the most-recently-queued mark alone,
    /// builds no display list, and hands the producer's fence straight back
    /// as the sole discarded owner — nothing will ever read the buffer, so
    /// the fence's promise is void. Fails with `QueueFull` as `queue_buffer`
    /// does.
    pub fn cancel_buffer(&mut self, buf: GonkNativeWindowBuffer, fence: Fence) -> (r: Result<
        Fence,
        QueueRejected,
    >)
        requires
            old(self)@.wf(),
            buf.count == 1,
            !old(self)@.holds_handle(buf.handle),
        ensures
            final(self)@.wf(),
            old(self)@.first_empty() matches Some(i) ==> ({
                &&& r is Ok
                &&& r->Ok_0@ == fence@
                &&& final(self)@ == old(self)@.canceled(buf, i)
            }),
            old(self)@.first_empty() is None ==> ({
                &&& r is Err
                &&& r->Err_0.error == QueueError::QueueFull
                &&& r->Err_0.buf == buf
                &&& r->Err_0.fence@ == fence@
                &&& final(self)@ == old(self)@
            }),
    {
        if self.slot0.is_none() {
            self.slot0 = Some(SlotEntry { buf, fence: Fence::none() });
            proof {
                assert(self@ =~= old(self)@.canceled(buf, 0));
            }
            Ok(fence)
        } else if self.slot1.is_none() {
            self.slot1 = Some(SlotEntry { buf, fence: Fence::none() });
            proof {
                assert(self@ =~= old(self)@.canceled(buf, 1));
            }
            Ok(fence)
        } else {
            Err(QueueRejected { error: QueueError::QueueFull, buf, fence })
        }
    }

    /// Stores the release fence the compositor produced for the buffer that
    /// was just queued into `slot`; the slot hands it out on its next
    /// dequeue. Composition failures do not roll the slot back, so this is
    /// called whatever `prepare`/`set` returned, with "no fence" if the
    /// compositor provided none.
    pub fn finish_frame(&mut self, slot: usize, release: Fence)
        requires
            old(self)@.wf(),
            slot < 2,
            old(self)@.slots[slot as int] is Some,
            old(self)@.slots[slot as int]->Some_0.fence == NO_FENCE as int,
        ensures
            final(self)@.wf(),
            final(self)@ == old(self)@.with_fence(slot as int, release@),
    {
        if slot == 0 {
            match &mut self.slot0 {
                Some(e) => {
                    e.fence = release;
                }
                None => {
                    proof {
                        assert(false);
                    }
                }
            }
            proof {
                assert(self@ =~= old(self)@.with_fence(0, release@));
            }
        } else {
            match &mut self.slot1 {
                Some(e) => {
                    e.fence = release;
                }
                None => {
                    proof {
                        assert(false);
                    }
                }
            }
            proof {
                assert(self@ =~= old(self)@.with_fence(1, release@));
            }
        }
    }

    /// Answers a property query from the rendering runtime: writes the value
    /// for the codes it knows and reports 0, leaves the out-parameter alone
    /// and reports -1 for any other code. The crop code is accepted without
    /// effect.
    pub fn query(&self, what: i32, value: &mut i32) -> (r: i32)
        ensures
            (what == NATIVE_WINDOW_WIDTH || what == NATIVE_WINDOW_DEFAULT_WIDTH) ==> r == 0
                && *final(value) == self@.width,
            (what == NATIVE_WINDOW_HEIGHT || what == NATIVE_WINDOW_DEFAULT_HEIGHT) ==> r == 0
                && *final(value) == self@.height,
            what == NATIVE_WINDOW_FORMAT ==> r == 0 && *final(value) == self@.format,
            what == NATIVE_WINDOW_CONSUMER_USAGE_BITS ==> r == 0 && *final(value) == self@.usage,
            (what == NATIVE_WINDOW_TRANSFORM_HINT || what == NATIVE_WINDOW_DEFAULT_DATASPACE
                || what == NATIVE_WINDOW_BUFFER_AGE) ==> r == 0 && *final(value) == 0,
            what == NATIVE_WINDOW_SET_CROP ==> r == 0 && *final(value) == *old(value),
            !(what == NATIVE_WINDOW_WIDTH || what == NATIVE_WINDOW_HEIGHT || what
                == NATIVE_WINDOW_FORMAT || what == NATIVE_WINDOW_SET_CROP || what
                == NATIVE_WINDOW_DEFAULT_WIDTH || what == NATIVE_WINDOW_DEFAULT_HEIGHT || what
                == NATIVE_WINDOW_TRANSFORM_HINT || what == NATIVE_WINDOW_CONSUMER_USAGE_BITS || what
                == NATIVE_WINDOW_DEFAULT_DATASPACE || what == NATIVE_WINDOW_BUFFER_AGE) ==> r == -1
                && *final(value) == *old(value),
    {
        if what == NATIVE_WINDOW_WIDTH || what == NATIVE_WINDOW_DEFAULT_WIDTH {
            *value = self.width;
            0
        } else if what == NATIVE_WINDOW_HEIGHT || what == NATIVE_WINDOW_DEFAULT_HEIGHT {
            *value = self.height;
            0
        } else if what == NATIVE_WINDOW_FORMAT {
            *value = self.format;
            0
        } else if what == NATIVE_WINDOW_CONSUMER_USAGE_BITS {
            *value = self.usage;
            0
        } else if what == NATIVE_WINDOW_TRANSFORM_HINT || what == NATIVE_WINDOW_DEFAULT_DATASPACE
            || what == NATIVE_WINDOW_BUFFER_AGE {
            *value = 0;
            0
        } else if what == NATIVE_WINDOW_SET_CROP {
            0
        } else {
            -1
        }
    }

    /// Records the new pixel format for buffers allocated from now on; the
    /// slots are not touched until the next `alloc_buffers`.
    pub fn set_format(&mut self, format: i32) -> (r: i32)
        ensures
            r == 0,
            final(self)@ == (QueueModel { format, ..old(self)@ }),
    {
        self.format = format;
        proof {
            assert(self@ =~= (QueueModel { format, ..old(self)@ }));
        }
        0
    }

    /// Accepted but deliberately not actioned in this embedding.
    pub fn set_transform(&mut self, _transform: i32) -> (r: i32)
        ensures
            r == 0,
            final(self)@ == old(self)@,
    {
        0
    }

    /// Accepted but deliberately not actioned in this embedding.
    pub fn set_dimensions(&mut self, _width: i32, _height: i32) -> (r: i32)
        ensures
            r == 0,
            final(self)@ == old(self)@,
    {
        0
    }

    /// Accepted but deliberately not actioned in this embedding.
    pub fn set_swap_interval(&mut self, _interval: i32) -> (r: i32)
        ensures
            r == 0,
            final(self)@ == old(self)@,
    {
        0
    }

    /// Accepted but deliberately not actioned in this embedding.
    pub fn api_connect(&mut self, _api: i32) -> (r: i32)
        ensures
            r == 0,
            final(self)@ == old(self)@,
    {
        0
    }

    /// Accepted but deliberately not actioned in this embedding.
    pub fn api_disconnect(&mut self, _api: i32) -> (r: i32)
        ensures
            r == 0,
            final(self)@ == old(self)@,
    {
        0
    }

    /// Records one more external owner of the queue.
    pub fn acquire(&mut self)
        requires
            old(self)@.count < i32::MAX,
        ensures
            final(self)@ == (QueueModel { count: (old(self)@.count + 1) as i32, ..old(self)@ }),
    {
        self.count = self.count + 1;
        proof {
            assert(self@ =~= (QueueModel { count: (old(self)@.count + 1) as i32, ..old(self)@ }));
        }
    }

    /// Records that one external owner let go; reports whether the queue is
    /// now unreferenced, at which point its owner tears it down.
    pub fn release(&mut self) -> (dead: bool)
        requires
            old(self)@.count >= 1,
        ensures
            final(self)@ == (QueueModel { count: (old(self)@.count - 1) as i32, ..old(self)@ }),
            dead == (old(self)@.count == 1),
    {
        self.count = self.count - 1;
        proof {
            assert(self@ =~= (QueueModel { count: (old(self)@.count - 1) as i32, ..old(self)@ }));
        }
        self.count == 0
    }

    /// (Re)populates both slots with freshly allocated buffers of the
    /// queue's current width, height, format and usage. Any buffer already
    /// in a slot loses its one owner and is returned to the allocator; the
    /// release fence that sat beside it is handed back for the embedder to
    /// dispose of ("no fence" where a slot was empty). Called before the
    /// first dequeue and again whenever usage or format changes.
    pub fn alloc_buffers(&mut self, alloc: &mut Allocator, stride: i32) -> (displaced: (
        Fence,
        Fence,
    ))
        requires
            old(self)@.wf(),
            old(alloc).wf(),
            old(alloc).can_allocate(2),
            old(self)@.slots[0] matches Some(e) ==> old(alloc)@.contains(e.buf.handle),
            old(self)@.slots[1] matches Some(e) ==> old(alloc)@.contains(e.buf.handle),
        ensures
            final(self)@.wf(),
            final(alloc).wf(),
            final(self)@.width == old(self)@.width,
            final(self)@.height == old(self)@.height,
            final(self)@.format == old(self)@.format,
            final(self)@.usage == old(self)@.usage,
            final(self)@.count == old(self)@.count,
            final(self)@.last_idx == old(self)@.last_idx,
            final(self)@.slots[0] matches Some(e) && e.fence == NO_FENCE as int && e.buf
                == (GonkNativeWindowBuffer {
                width: old(self)@.width,
                height: old(self)@.height,
                stride,
                format: old(self)@.format,
                usage: old(self)@.usage,
                handle: e.buf.handle,
                count: 1,
            }),
            final(self)@.slots[1] matches Some(e) && e.fence == NO_FENCE as int && e.buf
                == (GonkNativeWindowBuffer {
                width: old(self)@.width,
                height: old(self)@.height,
                stride,
                format: old(self)@.format,
                usage: old(self)@.usage,
                handle: e.buf.handle,
                count: 1,
            }),
            final(self)@.slots[0]->Some_0.buf.handle != final(self)@.slots[1]->Some_0.buf.handle,
            !old(alloc)@.contains(final(self)@.slots[0]->Some_0.buf.handle),
            !old(alloc)@.contains(final(self)@.slots[1]->Some_0.buf.handle),
            final(alloc)@.contains(final(self)@.slots[0]->Some_0.buf.handle),
            final(alloc)@.contains(final(self)@.slots[1]->Some_0.buf.handle),
            old(self)@.slots[0] matches Some(e) ==> !final(alloc)@.contains(e.buf.handle),
            old(self)@.slots[1] matches Some(e) ==> !final(alloc)@.contains(e.buf.handle),
            forall|h: u64|
                (!old(self)@.holds_handle(h) && !final(self)@.holds_handle(h)) ==> old(
                    alloc,
                )@.contains(h) == #[trigger] final(alloc)@.contains(h),
            final(alloc).spec_next() == old(alloc).spec_next() + 2,
            displaced.0@ == (if old(self)@.slots[0] is Some {
                old(self)@.slots[0]->Some_0.fence
            } else {
                NO_FENCE as int
            }),
            displaced.1@ == (if old(self)@.slots[1] is Some {
                old(self)@.slots[1]->Some_0.fence
            } else {
                NO_FENCE as int
            }),
    {
        let ghost a0 = alloc@;
        let d0: Fence = match self.slot0.take() {
            Some(e) => {
                let SlotEntry { mut buf, fence } = e;
                if buf.dec_ref() {
                    let _ = alloc.free(buf.handle);
                }
                fence
            }
            None => Fence::none(),
        };
        let ghost a1 = alloc@;
        let d1: Fence = match self.slot1.take() {
            Some(e) => {
                let SlotEntry { mut buf, fence } = e;
                if buf.dec_ref() {
                    let _ = alloc.free(buf.handle);
                }
                fence
            }
            None => Fence::none(),
        };
        let ghost a2 = alloc@;
        let b0 = alloc.allocate(self.width, self.height, self.format, self.usage, stride);
        let ghost a3 = alloc@;
        let b1 = alloc.allocate(self.width, self.height, self.format, self.usage, stride);
        proof {
            assert(!a2.contains(b0.handle)) by {
                if a2.contains(b0.handle) {
                    let k = choose|k: int| 0 <= k < a2.len() && a2[k] == b0.handle;
                }
            }
            assert(!a0.contains(b0.handle)) by {
                if a0.contains(b0.handle) {
                    let k = choose|k: int| 0 <= k < a0.len() && a0[k] == b0.handle;
                }
            }
            assert(!a0.contains(b1.handle)) by {
                if a0.contains(b1.handle) {
                    let k = choose|k: int| 0 <= k < a0.len() && a0[k] == b1.handle;
                }
            }
        }
        self.slot0 = Some(SlotEntry { buf: b0, fence: Fence::none() });
        self.slot1 = Some(SlotEntry { buf: b1, fence: Fence::none() });
        proof {
            assert(alloc@ == a3.push(b1.handle));
            assert(a3 == a2.push(b0.handle));
            assert(a3[a3.len() - 1] == b0.handle);
            assert(alloc@[a3.len() - 1] == b0.handle);
            assert(alloc@.contains(b0.handle));
            assert(alloc@[alloc@.len() - 1] == b1.handle);
            assert(alloc@.contains(b1.handle));
            let a4 = alloc@;
            if old(self)@.slots[0] is Some {
                let h = old(self)@.slots[0]->Some_0.buf.handle;
                assert(!a2.contains(h));
                assert(h < old(alloc).spec_next()) by {
                    let k = choose|k: int| 0 <= k < a0.len() && a0[k] == h;
                }
                assert(!a4.contains(h)) by {
                    if a4.contains(h) {
                        let k = choose|k: int| 0 <= k < a4.len() && a4[k] == h;
                        if k < a2.len() {
                            assert(a2[k] == h);
                        } else if k == a2.len() {
                            assert(a4[k] == b0.handle);
                        } else {
                            assert(a4[k] == b1.handle);
                        }
                    }
                }
            }
            if old(self)@.slots[1] is Some {
                let h = old(self)@.slots[1]->Some_0.buf.handle;
                assert(!a2.contains(h));
                assert(h < old(alloc).spec_next()) by {
                    let k = choose|k: int| 0 <= k < a0.len() && a0[k] == h;
                }
                assert(!a4.contains(h)) by {
                    if a4.contains(h) {
                        let k = choose|k: int| 0 <= k < a4.len() && a4[k] == h;
                        if k < a2.len() {
                            assert(a2[k] == h);
                        } else if k == a2.len() {
                            assert(a4[k] == b0.handle);
                        } else {
                            assert(a4[k] == b1.handle);
                        }
                    }
                }
            }
            assert forall|h: u64|
                (!old(self)@.holds_handle(h) && !self@.holds_handle(h)) implies a0.contains(h)
                == #[trigger] alloc@.contains(h) by {
                assert(a2.contains(h) == a1.contains(h));
                assert(a1.contains(h) == a0.contains(h));
                assert(a3.contains(h) == (a2.contains(h) || h == b0.handle)) by {
                    if a3.contains(h) {
                        let k = choose|k: int| 0 <= k < a3.len() && a3[k] == h;
                        if k < a2.len() {
                            assert(a2[k] == h);
                        }
                    }
                    if a2.contains(h) {
                        let k = choose|k: int| 0 <= k < a2.len() && a2[k] == h;
                        assert(a3[k] == h);
                    }
                    if h == b0.handle {
                        assert(a3[a3.len() - 1] == h);
                    }
                }
                assert(alloc@.contains(h) == (a3.contains(h) || h == b1.handle)) by {
                    if alloc@.contains(h) {
                        let k = choose|k: int| 0 <= k < alloc@.len() && alloc@[k] == h;
                        if k < a3.len() {
                            assert(a3[k] == h);
                        }
                    }
                    if a3.contains(h) {
                        let k = choose|k: int| 0 <= k < a3.len() && a3[k] == h;
                        assert(alloc@[k] == h);
                    }
                    if h == b1.handle {
                        assert(alloc@[alloc@.len() - 1] == h);
                    }
                }
            }
        }
        (d0, d1)
    }

    /// Records the new usage flags and immediately reallocates both slots
    /// with them, as `alloc_buffers` does; the displaced fences come back to
    /// the caller in the same way.
    pub fn set_usage(&mut self, usage: i32, alloc: &mut Allocator, stride: i32) -> (displaced: (
        Fence,
        Fence,
    ))
        requires
            old(self)@.wf(),
            old(alloc).wf(),
            old(alloc).can_allocate(2),
            old(self)@.slots[0] matches Some(e) ==> old(alloc)@.contains(e.buf.handle),
            old(self)@.slots[1] matches Some(e) ==> old(alloc)@.contains(e.buf.handle),
        ensures
            final(self)@.wf(),
            final(alloc).wf(),
            final(self)@.width == old(self)@.width,
            final(self)@.height == old(self)@.height,
            final(self)@.format == old(self)@.format,
            final(self)@.usage == usage,
            final(self)@.count == old(self)@.count,
            final(self)@.last_idx == old(self)@.last_idx,
            final(self)@.slots[0] matches Some(e) && e.fence == NO_FENCE as int && e.buf
                == (GonkNativeWindowBuffer {
                width: old(self)@.width,
                height: old(self)@.height,
                stride,
                format: old(self)@.format,
                usage,
                handle: e.buf.handle,
                count: 1,
            }),
            final(self)@.slots[1] matches Some(e) && e.fence == NO_FENCE as int && e.buf
                == (GonkNativeWindowBuffer {
                width: old(self)@.width,
                height: old(self)@.height,
                stride,
                format: old(self)@.format,
                usage,
                handle: e.buf.handle,
                count: 1,
            }),
            final(self)@.slots[0]->Some_0.buf.handle != final(self)@.slots[1]->Some_0.buf.handle,
            old(self)@.slots[0] matches Some(e) ==> !final(alloc)@.contains(e.buf.handle),
            old(self)@.slots[1] matches Some(e) ==> !final(alloc)@.contains(e.buf.handle),
            final(alloc)@.contains(final(self)@.slots[0]->Some_0.buf.handle),
            final(alloc)@.contains(final(self)@.slots[1]->Some_0.buf.handle),
            final(alloc).spec_next() == old(alloc).spec_next() + 2,
            displaced.0@ == (if old(self)@.slots[0] is Some {
                old(self)@.slots[0]->Some_0.fence
            } else {
                NO_FENCE as int
            }),
            displaced.1@ == (if old(self)@.slots[1] is Some {
                old(self)@.slots[1]->Some_0.fence
            } else {
                NO_FENCE as int
            }),
    {
        self.usage = usage;
        proof {
            assert(self@ =~= (QueueModel { usage, ..old(self)@ }));
        }
        self.alloc_buffers(alloc, stride)
    }
}

} // verus!

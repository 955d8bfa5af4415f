use gonk_gfx::fence::Fence;
use gonk_gfx::gonk_gfx::{
    ANativeBase, GonkNativeWindow, QueueError, NATIVE_WINDOW_BUFFER_AGE,
    NATIVE_WINDOW_CONSUMER_USAGE_BITS, NATIVE_WINDOW_FORMAT, NATIVE_WINDOW_HEIGHT,
    NATIVE_WINDOW_SET_CROP, NATIVE_WINDOW_WIDTH,
};
use gonk_gfx::gralloc::Allocator;
use gonk_gfx::hwc::hwc_display_contents;

/// A stand-in for the compositor device: counts `prepare`/`set` calls and
/// fills in the fences `set` produces.
struct ModelCompositor {
    prepare_calls: usize,
    set_calls: usize,
    next_retire: i32,
    next_release: i32,
}

impl ModelCompositor {
    fn new() -> ModelCompositor {
        ModelCompositor { prepare_calls: 0, set_calls: 0, next_retire: 90, next_release: 50 }
    }

    fn prepare(&mut self, _contents: &hwc_display_contents) -> i32 {
        self.prepare_calls += 1;
        0
    }

    fn set(&mut self, contents: &mut hwc_display_contents) -> i32 {
        self.set_calls += 1;
        contents.retire_fence_fd = self.next_retire;
        contents.hw_layers.1.release_fence_fd = self.next_release;
        0
    }
}

#[test]
fn dequeue_after_alloc_returns_allocated() {
    let mut alloc = Allocator::new();
    let mut win = GonkNativeWindow::new(640, 480, 3);
    let _ = win.alloc_buffers(&mut alloc, 640);
    let (buf, fence) = win.dequeue_buffer().unwrap();
    assert!(alloc.is_live(buf.handle));
    assert_eq!(buf.width, 640);
    assert_eq!(buf.height, 480);
    assert_eq!(buf.usage, 3);
    assert_eq!(buf.count, 1);
    assert!(!fence.is_some());
}

#[test]
fn dequeue_exhausts_both_slots_then_reports_backpressure() {
    // Nothing has been queued yet, so no slot is forbidden: the two
    // buffers come out one after the other, then nothing is left.
    let mut alloc = Allocator::new();
    let mut win = GonkNativeWindow::new(640, 480, 3);
    let _ = win.alloc_buffers(&mut alloc, 640);
    let (b0, _f0) = win.dequeue_buffer().unwrap();
    let (b1, _f1) = win.dequeue_buffer().unwrap();
    assert_ne!(b0.handle, b1.handle);
    match win.dequeue_buffer() {
        Err(QueueError::NoBufferAvailable) => {}
        _ => panic!("a third dequeue must report backpressure"),
    }
}

#[test]
fn dequeue_on_empty_queue_fails() {
    let mut win = GonkNativeWindow::new(320, 240, 0);
    match win.dequeue_buffer() {
        Err(QueueError::NoBufferAvailable) => {}
        _ => panic!("an unallocated queue has nothing to hand out"),
    }
}

#[test]
fn queue_without_dequeue_reports_queue_full() {
    let mut alloc = Allocator::new();
    let mut win = GonkNativeWindow::new(320, 240, 0);
    let _ = win.alloc_buffers(&mut alloc, 320);
    // Both slots hold buffers: queuing a foreign buffer violates producer
    // discipline and is rejected, with buffer and fence handed back.
    let stray = alloc.allocate(320, 240, 0, 0, 320);
    let stray_handle = stray.handle;
    match win.queue_buffer(stray, Fence::from_raw(11)) {
        Err(rej) => {
            assert_eq!(rej.error, QueueError::QueueFull);
            assert_eq!(rej.buf.handle, stray_handle);
            assert_eq!(rej.fence.into_raw(), 11);
        }
        Ok(_) => panic!("queue with no empty slot must fail"),
    }
}

#[test]
fn cancel_without_dequeue_reports_queue_full() {
    let mut alloc = Allocator::new();
    let mut win = GonkNativeWindow::new(320, 240, 0);
    let _ = win.alloc_buffers(&mut alloc, 320);
    let stray = alloc.allocate(320, 240, 0, 0, 320);
    match win.cancel_buffer(stray, Fence::from_raw(12)) {
        Err(rej) => {
            assert_eq!(rej.error, QueueError::QueueFull);
            assert_eq!(rej.fence.into_raw(), 12);
        }
        Ok(_) => panic!("cancel with no empty slot must fail"),
    }
}

#[test]
fn queued_buffer_is_not_handed_back() {
    // The just-displayed buffer stays with the compositor: a dequeue right
    // after queuing it must yield the other buffer.
    let mut alloc = Allocator::new();
    let mut comp = ModelCompositor::new();
    let mut win = GonkNativeWindow::new(800, 600, 3);
    let _ = win.alloc_buffers(&mut alloc, 800);
    let (buf_a, _fence) = win.dequeue_buffer().unwrap();
    let handle_a = buf_a.handle;
    let sub = win.queue_buffer(buf_a, Fence::none()).unwrap();
    let mut contents = sub.contents;
    comp.prepare(&contents);
    comp.set(&mut contents);
    let fences = gonk_gfx::hwc::collect_frame_fences(&contents);
    win.finish_frame(sub.slot, fences.release);
    let (buf_b, _fence_b) = win.dequeue_buffer().unwrap();
    assert_ne!(buf_b.handle, handle_a);
}

#[test]
fn cancel_skips_composition_and_discards_fence_once() {
    let mut alloc = Allocator::new();
    let mut comp = ModelCompositor::new();
    let mut win = GonkNativeWindow::new(800, 600, 3);
    let _ = win.alloc_buffers(&mut alloc, 800);
    let (buf, _fence) = win.dequeue_buffer().unwrap();
    let handle = buf.handle;
    let sets_before = comp.set_calls;
    let discarded = win.cancel_buffer(buf, Fence::from_raw(7)).unwrap();
    // No display list was built, so the compositor saw nothing.
    assert_eq!(comp.set_calls, sets_before);
    assert_eq!(comp.prepare_calls, 0);
    // The fence comes back to its caller exactly once; the slot keeps no
    // copy of it, so the next dequeue of this buffer carries no fence.
    assert_eq!(discarded.into_raw(), 7);
    let (again, fence_out) = win.dequeue_buffer().unwrap();
    assert_eq!(again.handle, handle);
    assert!(!fence_out.is_some());
}

#[test]
fn end_to_end_two_slot_frame() {
    let mut alloc = Allocator::new();
    let mut comp = ModelCompositor::new();
    let mut win = GonkNativeWindow::new(1920, 1080, 3);
    let _ = win.alloc_buffers(&mut alloc, 1920);

    let (buffer0, _f) = win.dequeue_buffer().unwrap();
    let handle0 = buffer0.handle;
    let sub = win.queue_buffer(buffer0, Fence::none()).unwrap();

    let mut contents = sub.contents;
    let crop = contents.hw_layers.1.source_crop;
    assert_eq!(
        (crop.left, crop.top, crop.right, crop.bottom),
        (0, 0, 1920, 1080)
    );
    assert_eq!(contents.hw_layers.1.handle, handle0);
    assert_eq!(contents.num_hw_layers, 2);

    let prep = comp.prepare(&contents);
    assert_eq!(prep, 0);
    let set = comp.set(&mut contents);
    assert_eq!(set, 0);
    assert_eq!(comp.prepare_calls, 1);
    assert_eq!(comp.set_calls, 1);

    let fences = gonk_gfx::hwc::collect_frame_fences(&contents);
    // The whole-frame retire fence is closed at once by the embedder; only
    // the per-layer release fence reaches the slot.
    assert_eq!(fences.retire.into_raw(), 90);
    win.finish_frame(sub.slot, fences.release);

    let (buffer1, _f1) = win.dequeue_buffer().unwrap();
    assert_ne!(buffer1.handle, handle0);
}

#[test]
fn release_fence_returns_on_next_dequeue_of_slot() {
    let mut alloc = Allocator::new();
    let mut comp = ModelCompositor::new();
    let mut win = GonkNativeWindow::new(640, 480, 3);
    let _ = win.alloc_buffers(&mut alloc, 640);
    let (b0, _f) = win.dequeue_buffer().unwrap();
    let h0 = b0.handle;
    let sub = win.queue_buffer(b0, Fence::none()).unwrap();
    let mut contents = sub.contents;
    comp.prepare(&contents);
    comp.set(&mut contents);
    let fences = gonk_gfx::hwc::collect_frame_fences(&contents);
    win.finish_frame(sub.slot, fences.release);

    // Cycle the other buffer through so the first slot becomes eligible.
    let (b1, _f1) = win.dequeue_buffer().unwrap();
    let sub1 = win.queue_buffer(b1, Fence::none()).unwrap();
    let mut contents1 = sub1.contents;
    comp.prepare(&contents1);
    comp.set(&mut contents1);
    let fences1 = gonk_gfx::hwc::collect_frame_fences(&contents1);
    win.finish_frame(sub1.slot, fences1.release);

    let (b0_again, fence_back) = win.dequeue_buffer().unwrap();
    assert_eq!(b0_again.handle, h0);
    assert_eq!(fence_back.into_raw(), 50);
}

#[test]
fn queue_acquire_fence_reaches_layer() {
    let mut alloc = Allocator::new();
    let mut win = GonkNativeWindow::new(640, 480, 3);
    let _ = win.alloc_buffers(&mut alloc, 640);
    let (b0, _f) = win.dequeue_buffer().unwrap();
    let sub = win.queue_buffer(b0, Fence::from_raw(33)).unwrap();
    assert_eq!(sub.contents.hw_layers.1.acquire_fence_fd, 33);
}

#[test]
fn alloc_buffers_replaces_and_frees_old_buffers() {
    let mut alloc = Allocator::new();
    let mut win = GonkNativeWindow::new(640, 480, 3);
    let _ = win.alloc_buffers(&mut alloc, 640);
    let (b0, _f) = win.dequeue_buffer().unwrap();
    let h_old0 = b0.handle;
    let _ = win.cancel_buffer(b0, Fence::none()).unwrap();
    assert_eq!(alloc.live_count(), 2);

    let _ = win.alloc_buffers(&mut alloc, 640);
    // Both replaced buffers went back to the allocator; two fresh ones are
    // live in their stead.
    assert_eq!(alloc.live_count(), 2);
    assert!(!alloc.is_live(h_old0));
    let (n0, _g0) = win.dequeue_buffer().unwrap();
    let (n1, _g1) = win.dequeue_buffer().unwrap();
    assert!(alloc.is_live(n0.handle));
    assert!(alloc.is_live(n1.handle));
    assert_ne!(n0.handle, n1.handle);
    assert_ne!(n0.handle, h_old0);
}

#[test]
fn set_usage_reallocates_with_new_flags() {
    let mut alloc = Allocator::new();
    let mut win = GonkNativeWindow::new(640, 480, 3);
    let _ = win.alloc_buffers(&mut alloc, 640);
    let _ = win.set_usage(0x1100, &mut alloc, 640);
    let mut value: i32 = 0;
    assert_eq!(win.query(NATIVE_WINDOW_CONSUMER_USAGE_BITS, &mut value), 0);
    assert_eq!(value, 0x1100);
    let (b, _f) = win.dequeue_buffer().unwrap();
    assert_eq!(b.usage, 0x1100);
}

#[test]
fn set_format_applies_to_next_allocation() {
    let mut alloc = Allocator::new();
    let mut win = GonkNativeWindow::new(640, 480, 3);
    assert_eq!(win.set_format(5), 0);
    let _ = win.alloc_buffers(&mut alloc, 640);
    let (b, _f) = win.dequeue_buffer().unwrap();
    assert_eq!(b.format, 5);
    let mut value: i32 = 0;
    assert_eq!(win.query(NATIVE_WINDOW_FORMAT, &mut value), 0);
    assert_eq!(value, 5);
}

#[test]
fn query_answers_known_codes_and_rejects_others() {
    let win = GonkNativeWindow::new(1024, 768, 9);
    let mut value: i32 = -7;
    assert_eq!(win.query(NATIVE_WINDOW_WIDTH, &mut value), 0);
    assert_eq!(value, 1024);
    assert_eq!(win.query(NATIVE_WINDOW_HEIGHT, &mut value), 0);
    assert_eq!(value, 768);
    assert_eq!(win.query(NATIVE_WINDOW_BUFFER_AGE, &mut value), 0);
    assert_eq!(value, 0);
    value = -7;
    assert_eq!(win.query(NATIVE_WINDOW_SET_CROP, &mut value), 0);
    assert_eq!(value, -7, "the crop code is accepted without writing a value");
    value = -7;
    assert_eq!(win.query(99, &mut value), -1);
    assert_eq!(value, -7, "an unknown code leaves the value alone");
}

#[test]
fn accepted_but_unactioned_setters_report_success() {
    let mut win = GonkNativeWindow::new(640, 480, 3);
    assert_eq!(win.set_transform(4), 0);
    assert_eq!(win.set_dimensions(100, 100), 0);
    assert_eq!(win.set_swap_interval(1), 0);
    assert_eq!(win.api_connect(1), 0);
    assert_eq!(win.api_disconnect(1), 0);
    let mut value: i32 = 0;
    assert_eq!(win.query(NATIVE_WINDOW_WIDTH, &mut value), 0);
    assert_eq!(value, 640, "the ignored setters changed nothing");
}

#[test]
fn queue_reference_count_reaches_zero_once() {
    let mut win = GonkNativeWindow::new(640, 480, 3);
    win.acquire();
    assert!(!win.release());
    assert!(win.release(), "the count created at 1 reaches 0 here");
}

#[test]
fn window_magic_packs_characters() {
    assert_eq!(ANativeBase::magic('_', 'w', 'n', 'd'), 0x5f77_6e64);
    assert_eq!(ANativeBase::magic('_', 'b', 'f', 'r'), 0x5f62_6672);
}

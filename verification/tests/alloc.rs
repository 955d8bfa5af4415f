use gonk_gfx::fence::Fence;
use gonk_gfx::gonk_gfx::GonkNativeWindowBuffer;
use gonk_gfx::gralloc::Allocator;

#[test]
fn allocate_then_free_returns_bookkeeping_to_zero() {
    let mut alloc = Allocator::new();
    let buf = alloc.allocate(1920, 1080, 1, 0x1300, 1920);
    assert_eq!(alloc.live_count(), 1);
    assert!(alloc.is_live(buf.handle));
    assert!(alloc.free(buf.handle));
    assert_eq!(alloc.live_count(), 0);
    assert!(!alloc.is_live(buf.handle));
}

#[test]
fn free_twice_does_not_double_release() {
    let mut alloc = Allocator::new();
    let buf = alloc.allocate(640, 480, 1, 0, 640);
    assert!(alloc.free(buf.handle));
    assert!(!alloc.free(buf.handle), "a second free of the same handle finds nothing");
    assert_eq!(alloc.live_count(), 0);
}

#[test]
fn allocate_fills_buffer_from_arguments() {
    let mut alloc = Allocator::new();
    let buf = alloc.allocate(800, 600, 2, 0x0900, 832);
    assert_eq!(buf.width, 800);
    assert_eq!(buf.height, 600);
    assert_eq!(buf.format, 2);
    assert_eq!(buf.usage, 0x0900);
    assert_eq!(buf.stride, 832);
    assert_eq!(buf.count, 1);
}

#[test]
fn handles_are_distinct_and_never_reused() {
    let mut alloc = Allocator::new();
    let a = alloc.allocate(64, 64, 1, 0, 64);
    let b = alloc.allocate(64, 64, 1, 0, 64);
    assert_ne!(a.handle, b.handle);
    assert!(alloc.free(a.handle));
    let c = alloc.allocate(64, 64, 1, 0, 64);
    assert_ne!(c.handle, a.handle, "a freed handle is not reissued");
    assert_ne!(c.handle, b.handle);
}

#[test]
fn freeing_unknown_handle_changes_nothing() {
    let mut alloc = Allocator::new();
    let buf = alloc.allocate(64, 64, 1, 0, 64);
    assert!(!alloc.free(buf.handle + 100));
    assert_eq!(alloc.live_count(), 1);
    assert!(alloc.is_live(buf.handle));
}

#[test]
fn buffer_reference_count_reaches_zero_once() {
    let mut buf = GonkNativeWindowBuffer::new(64, 64, 1, 0, 5, 64);
    buf.inc_ref();
    assert!(!buf.dec_ref());
    assert!(buf.dec_ref(), "the count created at 1 reaches 0 here");
}

#[test]
fn fence_take_moves_the_handle_out() {
    let mut fence = Fence::from_raw(21);
    assert!(fence.is_some());
    let taken = fence.take();
    assert!(!fence.is_some(), "the source is left holding no fence");
    assert_eq!(taken.into_raw(), 21);
    assert_eq!(Fence::none().into_raw(), -1);
}

use rose::scan::{FrameOp, Scheduler};

#[test]
fn fresh_scheduler_restarts_first() {
    let mut s = Scheduler::new(3, 2);
    assert!(s.needs_restart);
    assert_eq!(s.cursor, 0);
    assert!(!s.pending);
    let op = s.begin_frame();
    assert_eq!(op, FrameOp::Chrome);
    assert_eq!(s.cursor, 0);
    assert!(s.pending);
    assert!(!s.needs_restart);
}

#[test]
fn full_pass_covers_every_pixel_once_then_idles() {
    let mut s = Scheduler::new(3, 2);
    assert_eq!(s.begin_frame(), FrameOp::Chrome);

    let mut seen = [0usize; 6];
    for step in 0..6 {
        assert_eq!(s.begin_frame(), FrameOp::Scan);
        let (index, x, y) = s.next_pixel();
        assert_eq!(index, step);
        assert_eq!(x, index % 3);
        assert_eq!(y, 1 - index / 3);
        seen[index] += 1;
    }
    for count in seen {
        assert_eq!(count, 1);
    }
    assert_eq!(s.cursor, 0);
    assert!(!s.pending);

    // The frame is complete: without an invalidation the call is a no-op.
    assert_eq!(s.begin_frame(), FrameOp::Idle);
    assert_eq!(s.begin_frame(), FrameOp::Idle);
}

#[test]
fn pixel_coordinates_invert_the_vertical_axis() {
    let mut s = Scheduler::new(4, 3);
    s.begin_frame();
    // Pixel 0 is the bottom-left corner, which is raster row height - 1.
    let (index, x, y) = s.next_pixel();
    assert_eq!((index, x, y), (0, 0, 2));
    // Walk to the start of the next row.
    s.next_pixel();
    s.next_pixel();
    s.next_pixel();
    let (index, x, y) = s.next_pixel();
    assert_eq!((index, x, y), (4, 0, 1));
}

#[test]
fn invalidation_resets_cursor_regardless_of_progress() {
    let mut s = Scheduler::new(3, 2);
    s.begin_frame();
    s.next_pixel();
    s.next_pixel();
    assert_eq!(s.cursor, 2);

    s.invalidate();
    assert_eq!(s.cursor, 2); // the reset happens on the next call
    let op = s.begin_frame();
    assert_eq!(op, FrameOp::Chrome);
    assert_eq!(s.cursor, 0);

    // The pass starts over from pixel 0.
    assert_eq!(s.begin_frame(), FrameOp::Scan);
    let (index, _, _) = s.next_pixel();
    assert_eq!(index, 0);
}

#[test]
fn invalidation_mid_idle_restarts_the_frame() {
    let mut s = Scheduler::new(1, 1);
    s.begin_frame();
    let (index, x, y) = s.next_pixel();
    assert_eq!((index, x, y), (0, 0, 0));
    assert_eq!(s.begin_frame(), FrameOp::Idle);
    s.invalidate();
    assert_eq!(s.begin_frame(), FrameOp::Chrome);
    assert_eq!(s.begin_frame(), FrameOp::Scan);
}

#[test]
fn empty_frame_never_scans() {
    let mut s = Scheduler::new(0, 5);
    assert_eq!(s.begin_frame(), FrameOp::Chrome);
    assert!(!s.pending);
    assert_eq!(s.begin_frame(), FrameOp::Idle);
}

use renderer_core::frames::{AcquireOutcome, FrameLoop};
use renderer_core::MAX_FRAME_DRAWS;

#[test]
fn fresh_loop_starts_at_slot_zero_with_signaled_fences() {
    let frames = FrameLoop::new();
    assert_eq!(frames.current_frame, 0);
    assert_eq!(frames.fence_signaled.len(), MAX_FRAME_DRAWS);
    assert!(frames.fence_signaled.iter().all(|&s| s));
}

#[test]
fn completed_frame_submits_presents_and_advances() {
    let mut frames = FrameLoop::new();
    let a = frames.draw_tick(&AcquireOutcome::Ready { image_index: 1, suboptimal: false });
    assert_eq!(a.slot, 0);
    assert!(a.submit);
    assert!(a.present);
    assert_eq!(a.image_index, Some(1));
    assert_eq!(a.recreations, 0);
    assert_eq!(frames.current_frame, 1);
    // The slot's fence is now in flight until the next wait on it.
    assert!(!frames.fence_signaled[0]);
}

#[test]
fn slots_advance_in_strict_round_robin_order() {
    // Two full turns of the ring with no resize: slots 0,1,...,N-1,0,...
    let mut frames = FrameLoop::new();
    let mut used = Vec::new();
    for i in 0..2 * MAX_FRAME_DRAWS {
        let a = frames.draw_tick(&AcquireOutcome::Ready {
            image_index: (i % MAX_FRAME_DRAWS) as u32,
            suboptimal: false,
        });
        used.push(a.slot);
    }
    assert_eq!(used, vec![0, 1, 2, 0, 1, 2]);
}

#[test]
fn out_of_date_acquire_recreates_once_and_nothing_else() {
    // Acquire reports "out of date": zero submissions, zero presents, and
    // exactly one recreation before the tick returns.
    let mut frames = FrameLoop::new();
    let a = frames.draw_tick(&AcquireOutcome::OutOfDate);
    assert!(!a.submit);
    assert!(!a.present);
    assert_eq!(a.image_index, None);
    assert_eq!(a.recreations, 1);
    // The slot is not advanced and its fence stays signaled, so the next
    // tick reuses it without deadlocking on the fence wait.
    assert_eq!(frames.current_frame, 0);
    assert!(frames.fence_signaled[0]);
    let b = frames.draw_tick(&AcquireOutcome::Ready { image_index: 0, suboptimal: false });
    assert_eq!(b.slot, 0);
    assert!(b.submit);
}

#[test]
fn suboptimal_acquire_still_draws_then_recreates() {
    let mut frames = FrameLoop::new();
    let a = frames.draw_tick(&AcquireOutcome::Ready { image_index: 2, suboptimal: true });
    assert!(a.submit);
    assert!(a.present);
    assert_eq!(a.image_index, Some(2));
    assert_eq!(a.recreations, 1);
    assert_eq!(frames.current_frame, 1);
}

#[test]
fn fence_is_signaled_again_by_the_next_wait() {
    let mut frames = FrameLoop::new();
    frames.draw_tick(&AcquireOutcome::Ready { image_index: 0, suboptimal: false });
    frames.draw_tick(&AcquireOutcome::Ready { image_index: 1, suboptimal: false });
    frames.draw_tick(&AcquireOutcome::Ready { image_index: 2, suboptimal: false });
    // Slot 0's fence went in flight on the first tick; the fourth tick's
    // wait brings it back before the slot is reused.
    assert!(!frames.fence_signaled[0]);
    let a = frames.draw_tick(&AcquireOutcome::Ready { image_index: 0, suboptimal: false });
    assert_eq!(a.slot, 0);
}

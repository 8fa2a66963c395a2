use frame_loop::{AcquireOutcome, FrameLoop, Phase, RebuildOutcome, SubmitOutcome};

fn acquired(image: usize) -> AcquireOutcome {
    AcquireOutcome::Acquired { image, suboptimal: false }
}

/// Runs one frame on `image` and presents it with signal `sig`; returns the
/// signal that had to be waited on before the slot was reused.
fn frame(fl: &mut FrameLoop<u32, String>, image: usize, sig: &str) -> Option<String> {
    assert!(!fl.take_resize_request());
    assert_eq!(fl.acquire(acquired(image)), Some(image));
    let waited = fl.pending_signal().cloned();
    fl.wait_done();
    assert_eq!(fl.signal(image).cloned(), waited);
    fl.finish(SubmitOutcome::Signaled(sig.to_string()));
    waited
}

#[test]
fn new_loop_has_no_signals() {
    let fl: FrameLoop<u32, String> = FrameLoop::new(vec![10, 11, 12]);
    assert_eq!(fl.slot_count(), 3);
    assert!(!fl.resize_requested());
    assert_eq!(fl.previous_slot(), 0);
    assert_eq!(fl.phase(), Phase::Idle);
    for i in 0..3 {
        assert!(fl.signal(i).is_none());
    }
    assert_eq!(*fl.slot_resources(2), 12);
}

#[test]
fn steady_three_images_wait_before_each_reuse() {
    let mut fl: FrameLoop<u32, String> = FrameLoop::new(vec![10, 11, 12]);
    for round in 0..4 {
        for image in 0..3usize {
            let sig = format!("f{}-{}", round, image);
            let waited = frame(&mut fl, image, &sig);
            if round == 0 {
                assert_eq!(waited, None);
            } else {
                assert_eq!(waited, Some(format!("f{}-{}", round - 1, image)));
            }
            assert_eq!(fl.previous_slot(), image);
            assert_eq!(fl.signal(image).cloned(), Some(sig));
        }
    }
    assert!(!fl.resize_requested());
    assert_eq!(fl.slot_count(), 3);
}

#[test]
fn chain_follows_previous_frame() {
    let mut fl: FrameLoop<u32, String> = FrameLoop::new(vec![1, 2, 3]);
    frame(&mut fl, 1, "a");
    assert!(!fl.take_resize_request());
    assert_eq!(fl.acquire(acquired(2)), Some(2));
    fl.wait_done();
    assert_eq!(fl.chain_predecessor().cloned(), Some("a".to_string()));
    assert_eq!(fl.phase(), Phase::Drained { slot: 2 });
}

#[test]
fn chain_after_previous_signal_when_slot_is_reused() {
    let mut fl: FrameLoop<u32, String> = FrameLoop::new(vec![1, 2]);
    frame(&mut fl, 1, "a");
    assert_eq!(fl.acquire(acquired(1)), Some(1));
    assert_eq!(fl.pending_signal().cloned(), Some("a".to_string()));
    fl.wait_done();
    assert_eq!(fl.phase(), Phase::Drained { slot: 1 });
    assert_eq!(fl.chain_predecessor().cloned(), Some("a".to_string()));
    fl.finish(SubmitOutcome::Signaled("b".to_string()));
    assert_eq!(fl.signal(1).cloned(), Some("b".to_string()));
}

#[test]
fn chain_after_baseline_when_nothing_was_presented() {
    let mut fl: FrameLoop<u32, String> = FrameLoop::new(vec![1, 2]);
    assert_eq!(fl.acquire(acquired(1)), Some(1));
    fl.wait_done();
    assert!(fl.chain_predecessor().is_none());
}

#[test]
fn single_resize_rebuilds_once() {
    let mut fl: FrameLoop<u32, String> = FrameLoop::new(vec![1, 2, 3]);
    frame(&mut fl, 0, "a");
    frame(&mut fl, 1, "b");
    fl.window_resized();
    assert!(fl.resize_requested());
    assert!(fl.take_resize_request());
    fl.apply_rebuild(RebuildOutcome::Rebuilt(vec![7, 8]));
    assert_eq!(fl.slot_count(), 2);
    assert_eq!(fl.previous_slot(), 0);
    assert!(fl.signal(0).is_none());
    assert!(fl.signal(1).is_none());
    assert_eq!(*fl.slot_resources(1), 8);
    assert_eq!(frame(&mut fl, 1, "c"), None);
    assert_eq!(frame(&mut fl, 0, "d"), None);
    assert_eq!(frame(&mut fl, 1, "e"), Some("c".to_string()));
    assert_eq!(fl.slot_count(), 2);
}

#[test]
fn minimized_window_skips_rebuild_until_extent_is_valid() {
    let mut fl: FrameLoop<u32, String> = FrameLoop::new(vec![1, 2, 3]);
    frame(&mut fl, 2, "a");
    for _ in 0..5 {
        fl.window_resized();
        assert!(fl.take_resize_request());
        fl.apply_rebuild(RebuildOutcome::ExtentUnsupported);
        assert!(!fl.resize_requested());
        assert_eq!(fl.slot_count(), 3);
        assert_eq!(*fl.slot_resources(0), 1);
        assert_eq!(fl.signal(2).cloned(), Some("a".to_string()));
        assert_eq!(fl.previous_slot(), 2);
        assert_eq!(fl.phase(), Phase::Idle);
    }
    assert_eq!(frame(&mut fl, 2, "b"), Some("a".to_string()));
    fl.window_resized();
    assert!(fl.take_resize_request());
    fl.apply_rebuild(RebuildOutcome::Rebuilt(vec![5, 6, 7, 8]));
    assert_eq!(fl.slot_count(), 4);
    assert!(fl.signal(2).is_none());
}

#[test]
fn out_of_date_acquire_aborts_and_rebuilds_next() {
    let mut fl: FrameLoop<u32, String> = FrameLoop::new(vec![1, 2, 3]);
    frame(&mut fl, 0, "a");
    assert!(!fl.take_resize_request());
    assert_eq!(fl.acquire(AcquireOutcome::OutOfDate), None);
    assert!(fl.resize_requested());
    assert_eq!(fl.phase(), Phase::Idle);
    assert_eq!(fl.signal(0).cloned(), Some("a".to_string()));
    assert_eq!(fl.previous_slot(), 0);
    assert!(fl.take_resize_request());
    fl.apply_rebuild(RebuildOutcome::Rebuilt(vec![4, 5, 6]));
    assert!(fl.signal(0).is_none());
    assert!(!fl.resize_requested());
}

#[test]
fn other_acquire_failure_changes_nothing() {
    let mut fl: FrameLoop<u32, String> = FrameLoop::new(vec![1, 2]);
    frame(&mut fl, 1, "a");
    assert_eq!(fl.acquire(AcquireOutcome::Failed), None);
    assert!(!fl.resize_requested());
    assert_eq!(fl.phase(), Phase::Idle);
    assert_eq!(fl.previous_slot(), 1);
}

#[test]
fn suboptimal_image_is_used_and_asks_for_rebuild() {
    let mut fl: FrameLoop<u32, String> = FrameLoop::new(vec![1, 2]);
    let r = fl.acquire(AcquireOutcome::Acquired { image: 1, suboptimal: true });
    assert_eq!(r, Some(1));
    assert!(fl.resize_requested());
    assert_eq!(fl.phase(), Phase::Acquired { slot: 1 });
    fl.wait_done();
    fl.finish(SubmitOutcome::Signaled("s".to_string()));
    assert_eq!(fl.signal(1).cloned(), Some("s".to_string()));
    assert!(fl.take_resize_request());
}

#[test]
fn execute_failure_keeps_previous_and_asks_for_rebuild() {
    let mut fl: FrameLoop<u32, String> = FrameLoop::new(vec![1, 2, 3]);
    frame(&mut fl, 0, "a");
    assert_eq!(fl.acquire(acquired(2)), Some(2));
    fl.wait_done();
    fl.finish(SubmitOutcome::ExecuteFailed);
    assert!(fl.resize_requested());
    assert_eq!(fl.previous_slot(), 0);
    assert!(fl.signal(2).is_none());
    assert_eq!(fl.phase(), Phase::Idle);
}

#[test]
fn present_out_of_date_stores_no_signal() {
    let mut fl: FrameLoop<u32, String> = FrameLoop::new(vec![1, 2]);
    frame(&mut fl, 1, "a");
    assert_eq!(fl.acquire(acquired(1)), Some(1));
    fl.wait_done();
    assert_eq!(fl.signal(1).cloned(), Some("a".to_string()));
    fl.finish(SubmitOutcome::PresentOutOfDate);
    assert!(fl.resize_requested());
    assert_eq!(fl.previous_slot(), 1);
    assert!(fl.signal(1).is_none());
}

#[test]
fn present_failure_stores_no_signal_and_continues() {
    let mut fl: FrameLoop<u32, String> = FrameLoop::new(vec![1, 2]);
    frame(&mut fl, 0, "a");
    assert_eq!(fl.acquire(acquired(1)), Some(1));
    fl.wait_done();
    fl.finish(SubmitOutcome::PresentFailed);
    assert!(!fl.resize_requested());
    assert_eq!(fl.previous_slot(), 1);
    assert!(fl.signal(1).is_none());
    assert_eq!(fl.signal(0).cloned(), Some("a".to_string()));
}

#[test]
fn execute_failure_keeps_waited_signal_in_slot() {
    let mut fl: FrameLoop<u32, String> = FrameLoop::new(vec![1, 2, 3]);
    frame(&mut fl, 0, "a");
    frame(&mut fl, 1, "b");
    assert_eq!(fl.acquire(acquired(0)), Some(0));
    fl.wait_done();
    fl.finish(SubmitOutcome::ExecuteFailed);
    assert!(fl.resize_requested());
    assert_eq!(fl.previous_slot(), 1);
    assert_eq!(fl.signal(0).cloned(), Some("a".to_string()));
    assert_eq!(fl.signal(1).cloned(), Some("b".to_string()));
    assert!(fl.signal(2).is_none());
    assert_eq!(fl.phase(), Phase::Idle);
}

//! Tests of the frame ring's fence bookkeeping and driver state machine.

use frame_ring::commands::record_frame;
use frame_ring::commands::CommandList;
use frame_ring::errors::PresentError;
use frame_ring::ring::FrameRing;
use frame_ring::ring::Phase;

/// Drive one full frame iteration with a GPU whose completed value the test
/// chooses. Returns the fence value signaled for the frame and the wait
/// target, if the ring asked for a blocking wait.
fn run_iteration(
    ring: &mut FrameRing,
    list: &mut CommandList,
    next_index: usize,
    gpu_completed: u64,
) -> (u64, Option<u64>) {
    let slot = ring.begin_frame();
    record_frame(list, slot).expect("recording a closed list cannot fault");
    ring.submit(list);
    let signaled = ring
        .present_outcome(Ok(()))
        .expect("a successful present yields the frame's fence value");
    ring.adopt(next_index);
    let wait = ring.settle(gpu_completed);
    if wait.is_some() {
        ring.wait_done();
    }
    (signaled, wait)
}

#[test]
fn fresh_ring_starts_at_zero() {
    let ring = FrameRing::new(2, 0);
    assert_eq!(ring.slot_count(), 2);
    assert_eq!(ring.current_index(), 0);
    assert_eq!(ring.current_phase(), Phase::Idle);
    assert_eq!(ring.completed_value(), 0);
    assert_eq!(ring.signaled_value(), 0);
    assert_eq!(ring.target_value(0), 0);
    assert_eq!(ring.target_value(1), 0);
}

#[test]
fn first_four_iterations_follow_the_ring() {
    // Two-buffer ring, fresh start, with a GPU that completes every signal
    // at once: the exact (index, signaled value, new target) sequence is
    // (0, 0, slot 1 := 1), (1, 1, slot 0 := 2), (0, 2, slot 1 := 3),
    // (1, 3, slot 0 := 4), and no iteration blocks.
    let mut ring = FrameRing::new(2, 0);
    let mut list = CommandList::create();
    list.close().expect("a fresh list closes once");

    let expected: [(usize, u64, usize, u64); 4] =
        [(0, 0, 1, 1), (1, 1, 0, 2), (0, 2, 1, 3), (1, 3, 0, 4)];
    for (index, signal, next, new_target) in expected {
        assert_eq!(ring.current_index(), index);
        let (signaled, wait) = run_iteration(&mut ring, &mut list, next, signal);
        assert_eq!(signaled, signal);
        assert_eq!(wait, None);
        assert_eq!(ring.current_index(), next);
        assert_eq!(ring.target_value(next), new_target);
    }
}

#[test]
fn present_failure_surfaces_before_signal() {
    let mut ring = FrameRing::new(2, 0);
    let mut list = CommandList::create();
    list.close().expect("a fresh list closes once");

    let slot = ring.begin_frame();
    record_frame(&mut list, slot).expect("recording a closed list cannot fault");
    ring.submit(&list);

    let before_index = ring.current_index();
    let before_signaled = ring.signaled_value();
    let r = ring.present_outcome(Err(PresentError::DeviceLost));
    assert_eq!(r, Err(PresentError::DeviceLost));
    // No fence signal happened for the iteration and the active frame index
    // did not advance.
    assert_eq!(ring.signaled_value(), before_signaled);
    assert_eq!(ring.current_index(), before_index);
    assert_eq!(ring.current_phase(), Phase::Submitted);

    // The ring state is untouched: the same iteration could still conclude.
    let r2 = ring.present_outcome(Ok(()));
    assert_eq!(r2, Ok(0));
}

#[test]
fn lagging_gpu_forces_wait() {
    // With a GPU that never reports progress, the first two iterations pass
    // (both slots start with target zero) and the third must block on the
    // value signaled for the first frame of that slot.
    let mut ring = FrameRing::new(2, 0);
    let mut list = CommandList::create();
    list.close().expect("a fresh list closes once");

    let (s0, w0) = run_iteration(&mut ring, &mut list, 1, 0);
    assert_eq!((s0, w0), (0, None));
    let (s1, w1) = run_iteration(&mut ring, &mut list, 0, 0);
    assert_eq!((s1, w1), (1, None));
    let (s2, w2) = run_iteration(&mut ring, &mut list, 1, 0);
    assert_eq!(s2, 2);
    assert_eq!(w2, Some(1));
    // After the wait returned, the slot was retargeted past every signal.
    assert_eq!(ring.target_value(1), 3);
    assert_eq!(ring.current_phase(), Phase::Idle);
}

#[test]
fn drain_twice_never_blocks_on_a_met_value() {
    // Idempotent shutdown: each drain signals a fresh value, and once the
    // GPU reports it complete, settling returns immediately instead of
    // asking for a wait.
    let mut ring = FrameRing::new(2, 0);

    let v1 = ring.begin_drain();
    assert_eq!(v1, 0);
    assert_eq!(ring.settle(v1), None);
    assert_eq!(ring.current_phase(), Phase::Idle);
    assert_eq!(ring.target_value(0), 1);

    let v2 = ring.begin_drain();
    assert_eq!(v2, 1);
    assert_eq!(ring.settle(v2), None);
    assert_eq!(ring.current_phase(), Phase::Idle);
    assert_eq!(ring.target_value(0), 2);
}

#[test]
fn drain_after_frames_covers_in_flight_work() {
    let mut ring = FrameRing::new(2, 0);
    let mut list = CommandList::create();
    list.close().expect("a fresh list closes once");

    run_iteration(&mut ring, &mut list, 1, 0);
    run_iteration(&mut ring, &mut list, 0, 1);

    // Slot 0 is about to be reused with target 2; draining signals exactly
    // that value, and a GPU that reached it makes the drain return at once.
    let v = ring.begin_drain();
    assert_eq!(v, 2);
    assert_eq!(ring.settle(v), None);
    assert_eq!(ring.completed_value(), 2);
    assert_eq!(ring.target_value(0), 3);
}

#[test]
fn completed_value_is_monotone_and_clamped() {
    let mut ring = FrameRing::new(2, 0);
    let mut list = CommandList::create();
    list.close().expect("a fresh list closes once");

    let mut last_completed: u64 = 0;
    // Feed nonsense completed readings: enormous, then zero again. The
    // observed value never decreases and never runs past what was signaled.
    let readings: [u64; 4] = [u64::MAX, 0, 7, 0];
    let nexts: [usize; 4] = [1, 0, 1, 0];
    for (gpu, next) in readings.into_iter().zip(nexts) {
        run_iteration(&mut ring, &mut list, next, gpu);
        assert!(ring.completed_value() >= last_completed);
        assert!(ring.completed_value() <= ring.signaled_value());
        last_completed = ring.completed_value();
    }
}

#[test]
fn slot_targets_strictly_increase_on_reuse() {
    let mut ring = FrameRing::new(2, 0);
    let mut list = CommandList::create();
    list.close().expect("a fresh list closes once");

    let mut prev0 = ring.target_value(0);
    let mut prev1 = ring.target_value(1);
    let mut signal: u64 = 0;
    for i in 0..6usize {
        let next = 1 - (i % 2);
        run_iteration(&mut ring, &mut list, next, signal);
        signal += 1;
        let t = ring.target_value(next);
        if next == 0 {
            assert!(t > prev0);
            prev0 = t;
        } else {
            assert!(t > prev1);
            prev1 = t;
        }
    }
}

#[test]
fn aborted_wait_leaves_only_the_drain() {
    let mut ring = FrameRing::new(2, 0);
    let mut list = CommandList::create();
    list.close().expect("a fresh list closes once");

    // Reach a genuine wait (third iteration of a never-progressing GPU),
    // then fail its registration.
    run_iteration(&mut ring, &mut list, 1, 0);
    run_iteration(&mut ring, &mut list, 0, 0);
    let slot = ring.begin_frame();
    record_frame(&mut list, slot).expect("recording a closed list cannot fault");
    ring.submit(&list);
    let signaled = ring.present_outcome(Ok(())).expect("present succeeded");
    assert_eq!(signaled, 2);
    ring.adopt(1);
    let wait = ring.settle(0);
    assert_eq!(wait, Some(1));
    ring.wait_aborted();
    assert_eq!(ring.current_phase(), Phase::Aborted);

    // The shutdown drain still runs and covers everything submitted.
    let v = ring.begin_drain();
    assert_eq!(v, 1);
    assert_eq!(ring.settle(2), None);
    assert_eq!(ring.current_phase(), Phase::Idle);
}

#[test]
fn drain_straight_after_present_covers_the_frame() {
    // A failure after the present (say, a failed signal registration) leaves
    // the ring mid-iteration; the shutdown drain must still run from there.
    let mut ring = FrameRing::new(2, 0);
    let mut list = CommandList::create();
    list.close().expect("a fresh list closes once");

    let slot = ring.begin_frame();
    record_frame(&mut list, slot).expect("recording a closed list cannot fault");
    ring.submit(&list);
    let signaled = ring.present_outcome(Ok(())).expect("present succeeded");
    assert_eq!(signaled, 0);
    assert_eq!(ring.current_phase(), Phase::Presented);

    let v = ring.begin_drain();
    assert_eq!(v, 0);
    assert_eq!(ring.settle(0), None);
    assert_eq!(ring.current_phase(), Phase::Idle);
    assert_eq!(ring.target_value(0), 1);
}

#[test]
fn adopting_the_same_slot_again_is_sound() {
    // The swapchain may report the slot that was just presented; its work
    // was signaled this iteration, so the wait target is already produced.
    let mut ring = FrameRing::new(2, 0);
    let mut list = CommandList::create();
    list.close().expect("a fresh list closes once");

    let (s, w) = run_iteration(&mut ring, &mut list, 0, 0);
    assert_eq!((s, w), (0, None));
    assert_eq!(ring.current_index(), 0);
    assert_eq!(ring.target_value(0), 1);

    let (s1, w1) = run_iteration(&mut ring, &mut list, 0, 1);
    assert_eq!((s1, w1), (1, None));
    assert_eq!(ring.target_value(0), 2);
}

#[test]
fn single_slot_ring_waits_every_frame_once_behind() {
    // The invariants hold for any slot count, including one.
    let mut ring = FrameRing::new(1, 0);
    let mut list = CommandList::create();
    list.close().expect("a fresh list closes once");

    let (s0, w0) = run_iteration(&mut ring, &mut list, 0, 0);
    assert_eq!((s0, w0), (0, None));
    assert_eq!(ring.target_value(0), 1);
    let (s1, w1) = run_iteration(&mut ring, &mut list, 0, 0);
    assert_eq!(s1, 1);
    assert_eq!(w1, Some(1));
    assert_eq!(ring.target_value(0), 2);
}

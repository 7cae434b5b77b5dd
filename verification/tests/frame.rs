use std::collections::HashMap;

use vulcor::frame::{AcquireAction, AcquireResult, FrameDriver, FrameOutcome, PresentResult};
use vulcor::swapchain::Extent2D;
use vulcor::synchronous::{RenderSync, MAX_FRAMES_IN_FLIGHT};

fn driver(image_count: usize) -> FrameDriver {
    let sync = RenderSync::new(vec![1, 2], vec![3, 4], vec![10, 20], image_count);
    FrameDriver::new(sync)
}

fn acquire(d: &mut FrameDriver, image_index: usize) -> vulcor::frame::FramePlan {
    match d.handle_acquire(AcquireResult::Acquired { image_index }) {
        AcquireAction::Proceed(plan) => plan,
        other => panic!("expected a submission plan, got {:?}", other),
    }
}

#[test]
fn first_frame_plan_uses_slot_zero() {
    let mut d = driver(3);
    assert_eq!(d.frame_fence(), 10);
    let plan = acquire(&mut d, 1);
    assert_eq!(plan.image_index, 1);
    assert_eq!(plan.prior_image_fence, 0);
    assert_eq!(plan.wait_semaphore, 1);
    assert_eq!(plan.signal_semaphore, 3);
    assert_eq!(plan.submit_fence, 10);
}

#[test]
fn cursor_advances_once_per_completed_frame_and_stays_in_range() {
    let mut d = driver(3);
    assert_eq!(d.sync.current_frame(), 0);
    for frame in 0..10 {
        let _ = acquire(&mut d, frame % 3);
        let outcome = d.finish_frame(PresentResult::Success);
        assert_eq!(outcome, FrameOutcome::Rendered);
        assert_eq!(d.sync.current_frame(), (frame + 1) % MAX_FRAMES_IN_FLIGHT);
        assert!(d.sync.current_frame() < MAX_FRAMES_IN_FLIGHT);
    }
}

#[test]
fn out_of_date_acquisition_orders_a_rebuild_and_keeps_the_cursor() {
    let mut d = driver(3);
    let _ = acquire(&mut d, 0);
    assert_eq!(d.finish_frame(PresentResult::Success), FrameOutcome::Rendered);
    let cursor_before = d.sync.current_frame();
    let table_before = d.sync.images_in_flight.clone();

    let action = d.handle_acquire(AcquireResult::OutOfDate);
    assert_eq!(action, AcquireAction::Rebuild);
    assert_eq!(d.sync.current_frame(), cursor_before);
    assert_eq!(d.sync.images_in_flight, table_before);
}

#[test]
fn failed_acquisition_is_fatal_and_changes_nothing() {
    let mut d = driver(2);
    let cursor_before = d.sync.current_frame();
    let action = d.handle_acquire(AcquireResult::Failure);
    assert_eq!(action, AcquireAction::Fatal);
    assert_eq!(d.sync.current_frame(), cursor_before);
}

#[test]
fn reacquired_image_is_gated_on_the_earlier_slots_fence() {
    // F = 2 slots, N = 3 images; acquisition returns image 0 twice in a row.
    let mut d = driver(3);

    let first = acquire(&mut d, 0);
    assert_eq!(first.prior_image_fence, 0);
    assert_eq!(first.submit_fence, 10);
    assert_eq!(d.finish_frame(PresentResult::Success), FrameOutcome::Rendered);

    // The active slot is now slot 1, but image 0 is still owned by slot 0's
    // fence, which must be waited on before the new submission.
    let second = acquire(&mut d, 0);
    assert_eq!(second.prior_image_fence, 10);
    assert_eq!(second.submit_fence, 20);
}

#[test]
fn presentation_outcomes_decide_rebuild_and_advance() {
    let mut d = driver(2);
    let _ = acquire(&mut d, 0);
    assert_eq!(
        d.finish_frame(PresentResult::Suboptimal),
        FrameOutcome::RebuildNeeded
    );
    assert_eq!(d.sync.current_frame(), 1);

    let _ = acquire(&mut d, 1);
    assert_eq!(
        d.finish_frame(PresentResult::OutOfDate),
        FrameOutcome::RebuildNeeded
    );
    assert_eq!(d.sync.current_frame(), 0);

    let _ = acquire(&mut d, 0);
    assert_eq!(d.finish_frame(PresentResult::Failure), FrameOutcome::Fatal);
    // A fatal end never advances the cursor.
    assert_eq!(d.sync.current_frame(), 0);
}

#[test]
fn sticky_resize_flag_forces_one_rebuild() {
    let mut d = driver(2);
    d.on_resize(Extent2D {
        width: 1024,
        height: 768,
    });
    assert!(d.resized);
    let _ = acquire(&mut d, 0);
    assert_eq!(
        d.finish_frame(PresentResult::Success),
        FrameOutcome::RebuildNeeded
    );
    assert!(!d.resized);
    d.rebuild(2);

    let _ = acquire(&mut d, 1);
    assert_eq!(d.finish_frame(PresentResult::Success), FrameOutcome::Rendered);
}

#[test]
fn minimized_window_suppresses_rendering() {
    let mut d = driver(2);
    assert!(d.should_render());
    d.on_resize(Extent2D { width: 0, height: 300 });
    assert!(!d.should_render());
    assert!(!d.resized);
    d.on_resize(Extent2D {
        width: 640,
        height: 480,
    });
    assert!(d.should_render());
    assert!(d.resized);
}

#[test]
fn rebuild_resets_ownership_and_keeps_slots() {
    let mut d = driver(3);
    let _ = acquire(&mut d, 0);
    let _ = d.finish_frame(PresentResult::Success);
    let _ = acquire(&mut d, 1);
    let _ = d.finish_frame(PresentResult::Success);
    assert_eq!(d.sync.images_in_flight, vec![10, 20, 0]);
    let cursor = d.sync.current_frame();

    d.rebuild(4);
    assert_eq!(d.sync.images_in_flight, vec![0, 0, 0, 0]);
    assert_eq!(d.sync.max_frames_in_flight(), 2);
    assert_eq!(d.sync.current_frame(), cursor);
}

#[test]
fn rebuilding_twice_in_a_row_equals_rebuilding_once() {
    let mut d = driver(3);
    let _ = acquire(&mut d, 2);
    let _ = d.finish_frame(PresentResult::Success);

    let mut twice = driver(3);
    let _ = acquire(&mut twice, 2);
    let _ = twice.finish_frame(PresentResult::Success);

    d.rebuild(4);
    twice.rebuild(2);
    twice.rebuild(4);

    assert_eq!(d.sync.images_in_flight, twice.sync.images_in_flight);
    assert_eq!(d.sync.current_frame(), twice.sync.current_frame());
    assert_eq!(d.sync.max_frames_in_flight(), twice.sync.max_frames_in_flight());
    assert_eq!(d.resized, twice.resized);
}

/// A mock queue: submissions are recorded with timestamps, and a fence wait
/// completes every pending submission signaling that fence at the wait's
/// timestamp. Per image, the intervals from submission to fence completion
/// must never overlap.
#[test]
fn mock_queue_shows_no_overlapping_use_of_an_image() {
    let mut d = driver(3);
    // Adversarial acquisition pattern: images repeat while slots rotate.
    let pattern = [0usize, 0, 1, 0, 2, 1, 0, 0, 2, 2, 1, 0];

    let mut now: u64 = 0;
    // fence handle -> index of the pending submission it will signal
    let mut pending: HashMap<u64, usize> = HashMap::new();
    // (image, submit time, completion time)
    let mut submissions: Vec<(usize, u64, Option<u64>)> = Vec::new();

    for &image in pattern.iter() {
        // Step 1: wait on the current slot's frame fence.
        let slot_fence = d.frame_fence();
        now += 1;
        if let Some(s) = pending.remove(&slot_fence) {
            submissions[s].2 = Some(now);
        }
        // Step 2: acquisition (the mock always succeeds).
        let plan = acquire(&mut d, image);
        // Step 3: wait on the fence recorded for this image, if any.
        now += 1;
        if plan.prior_image_fence != 0 {
            if let Some(s) = pending.remove(&plan.prior_image_fence) {
                submissions[s].2 = Some(now);
            }
        }
        // Step 6: submit, signaling the slot's fence.
        now += 1;
        submissions.push((plan.image_index, now, None));
        pending.insert(plan.submit_fence, submissions.len() - 1);
        // Steps 7-8: present and advance.
        assert_eq!(d.finish_frame(PresentResult::Success), FrameOutcome::Rendered);
    }

    // Strict non-overlap per image index: a submission to an image starts
    // only after the previous submission to that image has completed.
    for image in 0..3usize {
        let uses: Vec<&(usize, u64, Option<u64>)> =
            submissions.iter().filter(|s| s.0 == image).collect();
        for pair in uses.windows(2) {
            let end = pair[0].2.expect("earlier use never completed");
            assert!(
                end < pair[1].1,
                "image {} resubmitted at {} before completion at {}",
                image,
                pair[1].1,
                end
            );
        }
    }
}

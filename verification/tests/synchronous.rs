use vulcor::synchronous::RenderSync;

#[test]
fn sync_state_starts_at_slot_zero_with_a_clean_table() {
    let sync = RenderSync::new(vec![1, 2], vec![3, 4], vec![10, 20], 3);
    assert_eq!(sync.current_frame(), 0);
    assert_eq!(sync.max_frames_in_flight(), 2);
    assert_eq!(sync.image_count(), 3);
    assert_eq!(sync.images_in_flight, vec![0, 0, 0]);
    assert_eq!(sync.get_image_available(), 1);
    assert_eq!(sync.get_render_completed(), 3);
    assert_eq!(sync.get_in_flight_fence(), 10);
}

#[test]
fn sync_cursor_wraps_modulo_the_slot_count() {
    let mut sync = RenderSync::new(vec![1, 2], vec![3, 4], vec![10, 20], 2);
    sync.increment_frame();
    assert_eq!(sync.current_frame(), 1);
    assert_eq!(sync.get_in_flight_fence(), 20);
    sync.increment_frame();
    assert_eq!(sync.current_frame(), 0);
}

#[test]
fn image_ownership_is_recorded_for_the_current_slot() {
    let mut sync = RenderSync::new(vec![1, 2], vec![3, 4], vec![10, 20], 3);
    sync.update_image_in_flight(1);
    assert_eq!(sync.images_in_flight, vec![0, 10, 0]);
    sync.increment_frame();
    sync.update_image_in_flight(1);
    assert_eq!(sync.images_in_flight, vec![0, 20, 0]);
    sync.reset_images_in_flight(2);
    assert_eq!(sync.images_in_flight, vec![0, 0]);
}

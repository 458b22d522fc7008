use hudhook::ring::FrameRing;

#[test]
fn ring_build_holds_one_context_per_buffer() {
    let ring = FrameRing::build(1000, 32, 2);
    assert_eq!(ring.contexts.len(), 2);
    assert_eq!(ring.next_fence_value, 1);
    assert_eq!(ring.contexts[0].index, 0);
    assert_eq!(ring.contexts[1].index, 1);
    assert_eq!(ring.contexts[0].desc_handle, 1000);
    assert_eq!(ring.contexts[1].desc_handle, 1032);
    assert_eq!(ring.contexts[0].last_signaled_value, 0);
    assert_eq!(ring.contexts[1].last_signaled_value, 0);
}

#[test]
fn ring_descriptors_and_fences_distinct_for_small_counts() {
    for n in 2..=4u32 {
        let ring = FrameRing::build(4096, 128, n);
        assert_eq!(ring.contexts.len(), n as usize);
        for i in 0..n as usize {
            assert_eq!(ring.contexts[i].desc_handle, 4096 + (i as u64) * 128);
            for j in 0..n as usize {
                if i != j {
                    assert_ne!(ring.contexts[i].desc_handle, ring.contexts[j].desc_handle);
                    assert_ne!(ring.contexts[i].index, ring.contexts[j].index);
                }
            }
        }
    }
}

#[test]
fn advance_values_strictly_increase_across_indices() {
    let mut ring = FrameRing::build(0, 64, 3);
    // Acquire back buffers out of order: values must still be handed out
    // strictly increasing from the ring-wide counter.
    let v1 = ring.advance(0);
    let v2 = ring.advance(2);
    let v3 = ring.advance(0);
    let v4 = ring.advance(1);
    assert_eq!(v1, 1);
    assert_eq!(v2, 2);
    assert_eq!(v3, 3);
    assert_eq!(v4, 4);
    assert!(v1 < v2 && v2 < v3 && v3 < v4);
    assert_eq!(ring.contexts[0].last_signaled_value, 3);
    assert_eq!(ring.contexts[1].last_signaled_value, 4);
    assert_eq!(ring.contexts[2].last_signaled_value, 2);
    assert_eq!(ring.next_fence_value, 5);
}

#[test]
fn ready_to_reset_requires_completed_fence() {
    let mut ring = FrameRing::build(0, 1, 2);
    // Nothing scheduled yet: value 0 is already complete.
    assert!(ring.ready_to_reset(0, 0));
    let v = ring.advance(0);
    assert_eq!(v, 1);
    assert!(!ring.ready_to_reset(0, 0));
    assert!(ring.ready_to_reset(0, 1));
    assert!(ring.ready_to_reset(0, 2));
    // The other context scheduled nothing and stays ready.
    assert!(ring.ready_to_reset(1, 0));
}

#[test]
fn teardown_waits_reports_every_context() {
    let mut ring = FrameRing::build(0, 16, 2);
    let _ = ring.advance(1);
    let _ = ring.advance(0);
    let waits = ring.teardown_waits();
    assert_eq!(waits, vec![2, 1]);
}

#[test]
fn ring_build_at_the_top_of_the_address_range() {
    // The descriptor range may end exactly at the largest address.
    let base = u64::MAX - 64;
    let ring = FrameRing::build(base, 32, 2);
    assert_eq!(ring.contexts[0].desc_handle, base);
    assert_eq!(ring.contexts[1].desc_handle, base + 32);
}

#[test]
fn current_returns_the_acquired_context() {
    let ring = FrameRing::build(500, 8, 3);
    let ctx = ring.current(2);
    assert_eq!(ctx.index, 2);
    assert_eq!(ctx.desc_handle, 516);
}

use hudhook::hooks::TrampolineTable;
use hudhook::overlay::{
    CursorPos, FrameInputs, FramePlan, LifecycleState, Overlay, PresentDecision, RectSize,
    ResizeArgs, ResourceState, SwapChainDesc, Transition,
};

fn table() -> TrampolineTable {
    TrampolineTable { present: 0x1111, execute: 0x2222, resize: 0x3333 }
}

fn desc(buffer_count: u32) -> SwapChainDesc {
    SwapChainDesc { buffer_count, width: 800, height: 600, output_window: 0xAB }
}

fn quiet_inputs(index: u32, completed: u64) -> FrameInputs {
    FrameInputs {
        window_rect: None,
        cursor: None,
        back_buffer_index: index,
        fence_completed_value: completed,
    }
}

#[test]
fn present_on_uninitialized_builds_then_resize_rebuilds() {
    // A present call arrives with the overlay Uninitialized and a 2-buffer
    // swap chain.
    let mut overlay = Overlay::new(table());
    assert_eq!(overlay.lifecycle, LifecycleState::Uninitialized);
    let d = overlay.present_begin();
    assert_eq!(d, PresentDecision::BuildRenderer);
    overlay.install_renderer(desc(2), 0x4000, 32, 0x77);
    assert_eq!(overlay.lifecycle, LifecycleState::Active);
    {
        let r = overlay.renderer.as_ref().unwrap();
        assert_eq!(r.ring.contexts.len(), 2);
        assert_eq!(r.command_queue, None);
        assert_eq!(r.saved_wnd_proc, 0x77);
    }

    // The host executes command lists once; the queue is captured.
    overlay.on_execute_command_lists(0x9000);
    assert_eq!(overlay.renderer.as_ref().unwrap().command_queue, Some(0x9000));

    // The frame renders, and the call forwards to the present trampoline
    // with the host's own arguments.
    assert_eq!(overlay.present_begin(), PresentDecision::RenderFrame);
    let plan = overlay.frame_step(quiet_inputs(0, 0));
    match plan {
        FramePlan::Render(rp) => {
            assert_eq!(rp.context_index, 0);
            assert_eq!(rp.signal_value, 1);
        }
        other => panic!("expected a render plan, got {:?}", other),
    }
    let fwd = overlay.forward_present(1, 0);
    assert_eq!(fwd.trampoline, 0x1111);
    assert_eq!(fwd.sync_interval, 1);
    assert_eq!(fwd.present_flags, 0);

    // A resize arrives: the renderer is torn down, the state reaches
    // Uninitialized before the detour forwards, and the teardown owes one
    // fence wait per context.
    let plan = overlay.resize_begin();
    assert_eq!(overlay.lifecycle, LifecycleState::TornDown);
    let plan = plan.expect("an Active overlay owes a teardown");
    assert_eq!(plan.fence_waits, vec![1, 0]);
    assert_eq!(plan.restore_wnd_proc, 0x77);
    assert_eq!(plan.window, 0xAB);
    overlay.resize_finish();
    assert_eq!(overlay.lifecycle, LifecycleState::Uninitialized);
    assert!(overlay.renderer.is_none());
    // Only then does the detour forward, with the host's own arguments.
    let args = ResizeArgs { buffer_count: 3, width: 1024, height: 768, format: 28, resize_flags: 0 };
    let (trampoline, forwarded) = overlay.forward_resize(args);
    assert_eq!(trampoline, 0x3333);
    assert_eq!(forwarded, args);

    // The next present call rebuilds a ring sized to the new buffer count.
    assert_eq!(overlay.present_begin(), PresentDecision::BuildRenderer);
    overlay.install_renderer(desc(3), 0x8000, 32, 0x77);
    assert_eq!(overlay.lifecycle, LifecycleState::Active);
    assert_eq!(overlay.renderer.as_ref().unwrap().ring.contexts.len(), 3);
}

#[test]
fn frame_without_captured_queue_skips_rendering() {
    let mut overlay = Overlay::new(table());
    overlay.present_begin();
    overlay.install_renderer(desc(2), 0, 1, 0);
    let plan = overlay.frame_step(quiet_inputs(0, 0));
    assert_eq!(plan, FramePlan::SkipRender);
    // The ring is untouched: nothing was scheduled.
    assert_eq!(overlay.renderer.as_ref().unwrap().ring.next_fence_value, 1);
}

#[test]
fn allocator_reset_waits_for_its_fence() {
    let mut overlay = Overlay::new(table());
    overlay.present_begin();
    overlay.install_renderer(desc(2), 0, 1, 0);
    overlay.on_execute_command_lists(0x9000);

    // First frame on index 0: value 0 is already complete, so it renders
    // and schedules fence value 1.
    let plan = overlay.frame_step(quiet_inputs(0, 0));
    let rp = match plan {
        FramePlan::Render(rp) => rp,
        other => panic!("expected a render plan, got {:?}", other),
    };
    assert_eq!(rp.signal_value, 1);
    assert_eq!(
        rp.enter_barrier,
        Transition { before: ResourceState::Present, after: ResourceState::RenderTarget }
    );
    assert_eq!(
        rp.exit_barrier,
        Transition { before: ResourceState::RenderTarget, after: ResourceState::Present }
    );

    // The same index comes around again, but its fence (a fake double here)
    // has not reported value 1 yet: the plan is a wait, not a reset.
    let plan = overlay.frame_step(quiet_inputs(0, 0));
    assert_eq!(plan, FramePlan::WaitFence { index: 0, value: 1 });

    // Once the fake fence reports completion, the reset may proceed.
    let plan = overlay.frame_step(quiet_inputs(0, 1));
    match plan {
        FramePlan::Render(rp) => assert_eq!(rp.signal_value, 2),
        other => panic!("expected a render plan, got {:?}", other),
    }
}

#[test]
fn frame_queries_update_input_and_failures_are_skipped() {
    let mut overlay = Overlay::new(table());
    overlay.present_begin();
    overlay.install_renderer(desc(2), 0, 1, 0);
    let inputs = FrameInputs {
        window_rect: Some(RectSize { width: 1024, height: 768 }),
        cursor: Some(CursorPos { x: 40, y: -3 }),
        back_buffer_index: 0,
        fence_completed_value: 0,
    };
    let _ = overlay.frame_step(inputs);
    {
        let r = overlay.renderer.as_ref().unwrap();
        assert_eq!(r.input.display_width, 1024);
        assert_eq!(r.input.display_height, 768);
        assert_eq!(r.input.cursor_x, 40);
        assert_eq!(r.input.cursor_y, -3);
    }
    // A failed query never aborts the frame; the old readings stay.
    let _ = overlay.frame_step(quiet_inputs(1, 0));
    {
        let r = overlay.renderer.as_ref().unwrap();
        assert_eq!(r.input.display_width, 1024);
        assert_eq!(r.input.cursor_x, 40);
    }
}

#[test]
fn queue_capture_is_idempotent_and_needs_a_renderer() {
    let mut overlay = Overlay::new(table());
    // No renderer exists: the detour only forwards, nothing is captured.
    overlay.on_execute_command_lists(0x111);
    assert!(overlay.renderer.is_none());

    overlay.present_begin();
    overlay.install_renderer(desc(2), 0, 1, 0);
    overlay.on_execute_command_lists(0x222);
    overlay.on_execute_command_lists(0x333);
    // Only the first observed queue is recorded.
    assert_eq!(overlay.renderer.as_ref().unwrap().command_queue, Some(0x222));
}

#[test]
fn resize_while_uninitialized_only_forwards() {
    let mut overlay = Overlay::new(table());
    let plan = overlay.resize_begin();
    assert!(plan.is_none());
    assert_eq!(overlay.lifecycle, LifecycleState::Uninitialized);
    overlay.resize_finish();
    assert_eq!(overlay.lifecycle, LifecycleState::Uninitialized);
    assert!(overlay.renderer.is_none());
}

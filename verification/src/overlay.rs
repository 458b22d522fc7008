//! Present interception state machine.
//!
//! The overlay reacts to three intercepted entry points of the host's
//! presentation pipeline. A present call lazily builds the renderer state
//! and the frame-context ring sized to the swap chain's current buffer
//! count, then plans one overlay frame per call. A resize call tears the
//! renderer down fully before the detour forwards to the trampoline, which
//! reallocates the back buffers the ring held. An execute-command-lists
//! call passively captures the host's command queue, the only given way to
//! obtain it.
//!
//! The machine itself never touches the device: it consumes plain readings
//! (swap-chain description, back-buffer index, fence completed value,
//! window rectangle, cursor position) and yields plans the unverified shell
//! carries out.

use crate::ImguiRenderLoopFlags;
use crate::hooks::TrampolineTable;
use crate::input::fresh_input_view;
use crate::input::InputState;
use crate::input::InputView;
use crate::ring::advance_rel;
use crate::ring::FrameRing;
use vstd::prelude::*;

verus! {

/// Lifecycle of the overlay renderer: no renderer built yet, steady-state
/// rendering, or a resize in progress that has torn the renderer down.
#[derive(Clone, Copy, PartialEq, Eq, Structural, Debug)]
pub enum LifecycleState {
    Uninitialized,
    Active,
    TornDown,
}

/// The swap-chain facts the overlay reads at initialization: buffer count,
/// output window and its current size.
#[derive(Clone, Copy, PartialEq, Eq, Structural, Debug)]
pub struct SwapChainDesc {
    pub buffer_count: u32,
    pub width: u32,
    pub height: u32,
    /// Handle of the window the swap chain presents into.
    pub output_window: u64,
}

/// The renderer state shared by the render path and the input bridge:
/// the UI input model, the focus flags, the frame-context ring, the
/// captured command queue and the saved original window procedure.
pub struct OverlayRenderer {
    pub input: InputState,
    pub flags: ImguiRenderLoopFlags,
    pub ring: FrameRing,
    /// The host's command queue, once the execute-command-lists detour has
    /// observed it; the overlay submits its own work there.
    pub command_queue: Option<u64>,
    /// The original window procedure, restored exactly once at teardown.
    pub saved_wnd_proc: u64,
    /// The output window whose procedure was replaced.
    pub window: u64,
}

impl OverlayRenderer {
    pub open spec fn wf(self) -> bool {
        &&& self.input.wf()
        &&& self.ring.wf()
    }
}

/// The whole interception state: lifecycle, the renderer while one exists,
/// and the trampoline table, fully populated at construction and only read
/// afterwards.
pub struct Overlay {
    pub lifecycle: LifecycleState,
    pub renderer: Option<OverlayRenderer>,
    pub trampolines: TrampolineTable,
}

impl Overlay {
    /// Well-formedness: a renderer exists exactly while the lifecycle is
    /// Active, and it is itself well-formed.
    pub open spec fn wf(self) -> bool {
        &&& (self.lifecycle is Active <==> self.renderer is Some)
        &&& (self.renderer matches Some(r) ==> r.wf())
    }

    /// The overlay as the hook installer leaves it: no renderer, and the
    /// trampoline table populated so every detour can forward.
    pub fn new(trampolines: TrampolineTable) -> (r: Overlay)
        ensures
            r.wf(),
            r.lifecycle is Uninitialized,
            r.renderer is None,
            r.trampolines == trampolines,
    {
        Overlay { lifecycle: LifecycleState::Uninitialized, renderer: None, trampolines }
    }

    /// Entry of the present detour: decides whether this call must first
    /// build the renderer. A torn-down overlay becomes Uninitialized here,
    /// so the rebuild reads the swap chain's current description.
    pub fn present_begin(&mut self) -> (d: PresentDecision)
        requires
            old(self).wf(),
        ensures
            final(self).wf(),
            d is RenderFrame <==> old(self).lifecycle is Active,
            old(self).lifecycle is Active ==> *final(self) == *old(self),
            !(old(self).lifecycle is Active) ==> *final(self) == (Overlay {
                lifecycle: LifecycleState::Uninitialized,
                ..*old(self)
            }),
    {
        match self.lifecycle {
            LifecycleState::Active => PresentDecision::RenderFrame,
            _ => {
                self.lifecycle = LifecycleState::Uninitialized;
                PresentDecision::BuildRenderer
            },
        }
    }

    /// Builds the renderer against the swap chain's current description:
    /// a frame-context ring with one context per back buffer, fresh input
    /// state capturing the current window size, focus assumed, no command
    /// queue captured yet, and the window procedure just replaced (the
    /// shell passes the original procedure it saved).
    pub fn install_renderer(
        &mut self,
        desc: SwapChainDesc,
        rtv_base: u64,
        rtv_increment: u64,
        saved_wnd_proc: u64,
    )
        requires
            old(self).wf(),
            old(self).lifecycle is Uninitialized,
            desc.buffer_count >= 1,
            rtv_increment >= 1,
            rtv_base + desc.buffer_count * rtv_increment <= u64::MAX,
        ensures
            final(self).wf(),
            final(self).lifecycle is Active,
            final(self).trampolines == old(self).trampolines,
            final(self).renderer is Some,
            ({
                let r = final(self).renderer->0;
                &&& r.input@ == fresh_input_view(desc.width, desc.height)
                &&& r.flags.focused
                &&& r.ring.contexts@.len() == desc.buffer_count
                &&& r.ring.rtv_base == rtv_base
                &&& r.ring.rtv_increment == rtv_increment
                &&& r.ring.next_fence_value == 1
                &&& forall|i: int|
                    0 <= i < desc.buffer_count ==> (
                    #[trigger] r.ring.contexts@[i]).last_signaled_value == 0
                &&& r.command_queue is None
                &&& r.saved_wnd_proc == saved_wnd_proc
                &&& r.window == desc.output_window
            }),
    {
        let ring = FrameRing::build(rtv_base, rtv_increment, desc.buffer_count);
        let input = InputState::new(desc.width, desc.height);
        self.renderer = Some(
            OverlayRenderer {
                input,
                flags: ImguiRenderLoopFlags { focused: true },
                ring,
                command_queue: None,
                saved_wnd_proc,
                window: desc.output_window,
            },
        );
        self.lifecycle = LifecycleState::Active;
    }

    /// Plans one overlay frame in the Active state. The shell passes what
    /// it read from the host: the window rectangle and cursor position
    /// (absent where the query failed — the frame goes on without them),
    /// the just-acquired back-buffer index, and the completed value of that
    /// context's fence. The plan either skips rendering (no command queue
    /// captured yet: the host's frame is presented untouched), asks for a
    /// wait on the context's fence, or renders: reset the context's
    /// allocator, transition the back buffer presentable-to-render-target,
    /// draw into the context's descriptor, transition back, submit on the
    /// captured queue and schedule `signal_value` on the context's fence.
    /// An allocator is reset only when its fence has reported completion of
    /// the value last scheduled on it.
    pub fn frame_step(&mut self, inputs: FrameInputs) -> (plan: FramePlan)
        requires
            old(self).wf(),
            old(self).lifecycle is Active,
            inputs.back_buffer_index < old(self).renderer->0.ring.contexts@.len(),
            old(self).renderer->0.ring.next_fence_value < u64::MAX,
        ensures
            final(self).wf(),
            final(self).lifecycle is Active,
            final(self).trampolines == old(self).trampolines,
            final(self).renderer is Some,
            ({
                let pre = old(self).renderer->0;
                let post = final(self).renderer->0;
                let idx = inputs.back_buffer_index as int;
                let owed = pre.ring.contexts@[idx].last_signaled_value;
                &&& post.input@ == apply_frame_queries(pre.input@, inputs)
                &&& post.flags == pre.flags
                &&& post.command_queue == pre.command_queue
                &&& post.saved_wnd_proc == pre.saved_wnd_proc
                &&& post.window == pre.window
                &&& (plan is SkipRender <==> pre.command_queue is None)
                &&& (plan is SkipRender ==> post.ring == pre.ring)
                &&& (plan matches FramePlan::WaitFence { index, value } ==> {
                    &&& index == inputs.back_buffer_index
                    &&& value == owed
                    &&& inputs.fence_completed_value < owed
                    &&& post.ring == pre.ring
                })
                &&& (plan is Render <==> (pre.command_queue is Some
                    && inputs.fence_completed_value >= owed))
                &&& (plan matches FramePlan::Render(rp) ==> {
                    &&& inputs.fence_completed_value >= owed
                    &&& rp.context_index == inputs.back_buffer_index
                    &&& rp.desc_handle == pre.ring.contexts@[idx].desc_handle
                    &&& advance_rel(pre.ring, post.ring, idx, rp.signal_value)
                    &&& rp.enter_barrier == (Transition {
                        before: ResourceState::Present,
                        after: ResourceState::RenderTarget,
                    })
                    &&& rp.exit_barrier == (Transition {
                        before: ResourceState::RenderTarget,
                        after: ResourceState::Present,
                    })
                })
            }),
    {
        match &mut self.renderer {
            Some(r) => {
                match inputs.window_rect {
                    Some(rect) => {
                        r.input.display_width = rect.width;
                        r.input.display_height = rect.height;
                    },
                    None => {},
                }
                match inputs.cursor {
                    Some(pos) => {
                        r.input.cursor_x = pos.x;
                        r.input.cursor_y = pos.y;
                    },
                    None => {},
                }
                if r.command_queue.is_none() {
                    FramePlan::SkipRender
                } else {
                    let idx = inputs.back_buffer_index;
                    let owed = r.ring.contexts[idx as usize].last_signaled_value;
                    if inputs.fence_completed_value < owed {
                        FramePlan::WaitFence { index: idx, value: owed }
                    } else {
                        let desc_handle = r.ring.contexts[idx as usize].desc_handle;
                        let signal_value = r.ring.advance(idx);
                        FramePlan::Render(
                            RenderPlan {
                                context_index: idx,
                                desc_handle,
                                signal_value,
                                enter_barrier: Transition {
                                    before: ResourceState::Present,
                                    after: ResourceState::RenderTarget,
                                },
                                exit_barrier: Transition {
                                    before: ResourceState::RenderTarget,
                                    after: ResourceState::Present,
                                },
                            },
                        )
                    }
                }
            },
            None => {
                proof {
                    assert(false);
                }
                FramePlan::SkipRender
            },
        }
    }

    /// The execute-command-lists detour's one side effect, idempotent:
    /// the first time a command queue is observed while the renderer
    /// exists, it is recorded for the overlay's own submissions. After
    /// first capture, and while no renderer exists, nothing changes. The
    /// detour always forwards to the trampoline.
    pub fn on_execute_command_lists(&mut self, queue: u64)
        requires
            old(self).wf(),
        ensures
            final(self).wf(),
            final(self).lifecycle == old(self).lifecycle,
            final(self).trampolines == old(self).trampolines,
            old(self).renderer is None ==> *final(self) == *old(self),
            old(self).renderer matches Some(r) ==> final(self).renderer == Some(
                OverlayRenderer {
                    command_queue: if r.command_queue is Some {
                        r.command_queue
                    } else {
                        Some(queue)
                    },
                    ..r
                },
            ),
    {
        match &mut self.renderer {
            Some(r) => {
                if r.command_queue.is_none() {
                    r.command_queue = Some(queue);
                }
            },
            None => {},
        }
    }

    /// First half of the resize detour: while Active, tears the renderer
    /// down and yields the teardown the shell must carry out — confirm
    /// every context's fence value before releasing the GPU objects, and
    /// restore the original window procedure, exactly once. In any other
    /// state nothing is held, and nothing changes.
    pub fn resize_begin(&mut self) -> (plan: Option<TeardownPlan>)
        requires
            old(self).wf(),
        ensures
            final(self).wf(),
            resize_begin_rel(*old(self), *final(self), plan),
    {
        match self.lifecycle {
            LifecycleState::Active => {
                let r = self.renderer.take().unwrap();
                let fence_waits = r.ring.teardown_waits();
                self.lifecycle = LifecycleState::TornDown;
                Some(
                    TeardownPlan {
                        fence_waits,
                        restore_wnd_proc: r.saved_wnd_proc,
                        window: r.window,
                    },
                )
            },
            _ => None,
        }
    }

    /// Second half of the resize detour, run after the teardown and before
    /// the detour forwards to the trampoline: the overlay is Uninitialized,
    /// so the next present call rebuilds against the resized swap chain.
    pub fn resize_finish(&mut self)
        requires
            old(self).wf(),
            !(old(self).lifecycle is Active),
        ensures
            final(self).wf(),
            resize_finish_rel(*old(self), *final(self)),
    {
        self.lifecycle = LifecycleState::Uninitialized;
    }

    /// The call every present detour makes last: the present trampoline,
    /// with the host's own arguments unmodified; the detour returns exactly
    /// what the trampoline returns.
    pub fn forward_present(&self, sync_interval: u32, present_flags: u32) -> (r: ForwardCall)
        ensures
            r.trampoline == self.trampolines.present,
            r.sync_interval == sync_interval,
            r.present_flags == present_flags,
    {
        ForwardCall { trampoline: self.trampolines.present, sync_interval, present_flags }
    }

    /// The call every resize detour makes last, after the overlay reached
    /// Uninitialized: the resize trampoline, with the host's own arguments
    /// unmodified, so the host reallocates its back buffers undisturbed.
    pub fn forward_resize(&self, args: ResizeArgs) -> (r: (u64, ResizeArgs))
        ensures
            r == (self.trampolines.resize, args),
    {
        (self.trampolines.resize, args)
    }
}

/// A present call forwarded to the trampoline.
#[derive(Clone, Copy, PartialEq, Eq, Structural, Debug)]
pub struct ForwardCall {
    pub trampoline: u64,
    pub sync_interval: u32,
    pub present_flags: u32,
}

/// The host's resize-buffers arguments, passed through unmodified.
#[derive(Clone, Copy, PartialEq, Eq, Structural, Debug)]
pub struct ResizeArgs {
    pub buffer_count: u32,
    pub width: u32,
    pub height: u32,
    pub format: u32,
    pub resize_flags: u32,
}

/// What the present detour does on entry: build the renderer first, or go
/// straight to the frame.
#[derive(Clone, Copy, PartialEq, Eq, Structural, Debug)]
pub enum PresentDecision {
    BuildRenderer,
    RenderFrame,
}

/// Client-rectangle size reported by the window system.
#[derive(Clone, Copy, PartialEq, Eq, Structural, Debug)]
pub struct RectSize {
    pub width: u32,
    pub height: u32,
}

/// Cursor position in client coordinates.
#[derive(Clone, Copy, PartialEq, Eq, Structural, Debug)]
pub struct CursorPos {
    pub x: i32,
    pub y: i32,
}

/// The per-frame readings the shell hands to [`Overlay::frame_step`].
#[derive(Clone, Copy, PartialEq, Eq, Structural, Debug)]
pub struct FrameInputs {
    /// Client size of the output window, absent where the query failed.
    pub window_rect: Option<RectSize>,
    /// Cursor position, absent where the output window is not foreground or
    /// the query failed.
    pub cursor: Option<CursorPos>,
    /// The just-acquired back-buffer index reported by the swap chain.
    pub back_buffer_index: u32,
    /// Completed value of the fence belonging to that back-buffer index.
    pub fence_completed_value: u64,
}

/// GPU resource states the overlay's single transition barrier moves the
/// back buffer between.
#[derive(Clone, Copy, PartialEq, Eq, Structural, Debug)]
pub enum ResourceState {
    Present,
    RenderTarget,
}

/// A resource-transition barrier.
#[derive(Clone, Copy, PartialEq, Eq, Structural, Debug)]
pub struct Transition {
    pub before: ResourceState,
    pub after: ResourceState,
}

/// One frame's render work.
#[derive(Clone, Copy, PartialEq, Eq, Structural, Debug)]
pub struct RenderPlan {
    /// The frame context to render with.
    pub context_index: u32,
    /// Its render-target-view descriptor to bind.
    pub desc_handle: u64,
    /// The fence value to schedule on the context's fence after submission.
    pub signal_value: u64,
    /// Barrier to issue before drawing: presentable to render target.
    pub enter_barrier: Transition,
    /// Barrier to issue after drawing: render target back to presentable.
    pub exit_barrier: Transition,
}

/// What one present call asks of the shell once the overlay is Active.
#[derive(Clone, Copy, PartialEq, Eq, Structural, Debug)]
pub enum FramePlan {
    /// No command queue captured yet: skip the render step entirely and
    /// present the host's untouched frame.
    SkipRender,
    /// The context's allocator is still in flight: wait on fence `index`
    /// until `value` completes, then plan again.
    WaitFence { index: u32, value: u64 },
    /// Render one overlay frame.
    Render(RenderPlan),
}

/// The teardown the shell must carry out when the renderer is released.
pub struct TeardownPlan {
    /// Per context, the fence value to confirm signaled before the GPU
    /// objects may be destroyed (no in-flight command list may still
    /// reference them).
    pub fence_waits: Vec<u64>,
    /// The original window procedure, to be restored exactly once.
    pub restore_wnd_proc: u64,
    /// The window whose procedure is restored.
    pub window: u64,
}

/// How the per-frame window queries change the input state: a successful
/// rectangle query sets the display size, a successful cursor query sets
/// the cursor position, and a failed query leaves the old reading in place.
pub open spec fn apply_frame_queries(v: InputView, inputs: FrameInputs) -> InputView {
    let v1 = if inputs.window_rect is Some {
        InputView {
            display_width: inputs.window_rect->0.width as int,
            display_height: inputs.window_rect->0.height as int,
            ..v
        }
    } else {
        v
    };
    if inputs.cursor is Some {
        InputView { cursor_x: inputs.cursor->0.x as int, cursor_y: inputs.cursor->0.y as int, ..v1 }
    } else {
        v1
    }
}

/// Whether `p` is the teardown owed for renderer `r`: one fence wait per
/// context, in index order, and the saved window procedure to restore.
pub open spec fn teardown_plan_for(r: OverlayRenderer, p: TeardownPlan) -> bool {
    &&& p.fence_waits@.len() == r.ring.contexts@.len()
    &&& forall|k: int|
        0 <= k < r.ring.contexts@.len() ==> p.fence_waits@[k] == (
        #[trigger] r.ring.contexts@[k]).last_signaled_value
    &&& p.restore_wnd_proc == r.saved_wnd_proc
    &&& p.window == r.window
}

/// How the first half of a resize relates the overlay before it to the
/// overlay after it: from Active, the renderer is gone, the state is
/// TornDown and the teardown plan is owed; from any other state nothing
/// changes and no plan is produced.
pub open spec fn resize_begin_rel(pre: Overlay, post: Overlay, plan: Option<TeardownPlan>) -> bool {
    if pre.lifecycle is Active {
        &&& post.lifecycle is TornDown
        &&& post.renderer is None
        &&& post.trampolines == pre.trampolines
        &&& plan is Some
        &&& teardown_plan_for(pre.renderer->0, plan->0)
    } else {
        &&& post == pre
        &&& plan is None
    }
}

/// How the second half of a resize relates the overlay before it to the
/// overlay after it: only the lifecycle moves, to Uninitialized.
pub open spec fn resize_finish_rel(pre: Overlay, post: Overlay) -> bool {
    post == (Overlay { lifecycle: LifecycleState::Uninitialized, ..pre })
}

/// A resize detour invoked while Active tears the renderer down and reaches
/// Uninitialized before the detour forwards to the trampoline; invoked in
/// any other state it reaches Uninitialized with nothing to tear down. The
/// rebuild on the next present call sizes the new ring to the swap chain's
/// then-current description (see [`Overlay::install_renderer`]).
pub proof fn lemma_resize_reaches_uninitialized(
    a: Overlay,
    b: Overlay,
    c: Overlay,
    plan: Option<TeardownPlan>,
)
    requires
        a.wf(),
        resize_begin_rel(a, b, plan),
        resize_finish_rel(b, c),
    ensures
        c.lifecycle is Uninitialized,
        c.renderer is None,
        c.trampolines == a.trampolines,
        a.lifecycle is Active <==> plan is Some,
        a.lifecycle is Active ==> teardown_plan_for(a.renderer->0, plan->0),
{
}

} // verus!

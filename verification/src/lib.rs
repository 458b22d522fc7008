//! Overlay interception and synchronization engine.
//!
//! This crate holds the verified core of a presentation-pipeline overlay:
//! the per-back-buffer frame-context ring with its fence discipline, the
//! present/resize lifecycle state machine, the hook installer's
//! all-or-nothing bookkeeping, and the window-message input bridge.
//!
//! The engine never talks to the graphics device or the window system
//! itself. Every decision it makes is a function from plain values (swap
//! chain description, back-buffer index, fence readings, raw window
//! messages) to plain values (render plans, teardown plans, forwarding
//! decisions). The unverified host-facing shell performs the device calls
//! and feeds the results back in.

use vstd::prelude::*;

pub mod hooks;
pub mod input;
pub mod overlay;
pub mod ring;

verus! {

/// Holds information useful to the render loop which cannot be retrieved
/// from the UI frame itself.
pub struct ImguiRenderLoopFlags {
    /// Whether the hooked program's window is currently focused.
    pub focused: bool,
}

} // verus!

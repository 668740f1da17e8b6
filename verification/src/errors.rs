//! Error taxonomy of the frame engine.
//!
//! Every failure is fatal to the current frame loop: creation failures abort
//! startup, submission and synchronization failures abort the iteration, and
//! a present failure is propagated unchanged. There is no silent recovery
//! anywhere: skipping a frame would desynchronize the ring's fence
//! bookkeeping.

use vstd::prelude::*;

verus! {

/// A GPU or platform object could not be created at startup. Always fatal;
/// the partially built engine is never usable.
#[derive(Clone, Copy, PartialEq, Eq, Structural, Debug)]
pub enum CreationError {
    /// No adapter met the requested minimum feature level.
    Device,
    /// The direct command queue could not be created.
    Queue,
    /// The presentation surface could not be created.
    Swapchain,
    /// The created surface does not expose the interface the engine needs
    /// (a failed interface downcast is its own error, never a success code).
    InterfaceNotSupported,
    /// The render-target descriptor heap could not be created.
    DescriptorHeap,
    /// A per-slot command allocator could not be created.
    Allocator,
    /// The shared command list could not be created.
    CommandList,
    /// The synchronization fence could not be created.
    Fence,
    /// The waitable event backing fence waits could not be created.
    Event,
    /// A render-target view could not be bound to its buffer.
    View,
}

/// A command-list usage fault while recording or submitting a frame. Fatal
/// within the iteration: a half-recorded frame is never resubmitted.
#[derive(Clone, Copy, PartialEq, Eq, Structural, Debug)]
pub enum SubmissionError {
    /// A list still open for recording was asked to reset.
    ResetWhileRecording,
    /// A command was emitted into a list that is already closed.
    CommandAfterClose,
    /// A list that is already closed was asked to close again.
    AlreadyClosed,
}

/// The presentation call failed (for example an occluded or lost output).
/// Propagated as fatal; swapchain or device recreation is out of scope.
#[derive(Clone, Copy, PartialEq, Eq, Structural, Debug)]
pub enum PresentError {
    /// The output is occluded and cannot present.
    Occluded,
    /// The device backing the swapchain was removed or reset.
    DeviceLost,
    /// Any other presentation failure.
    Other,
}

/// Registering the wait for a fence value failed. Fatal: without the wait,
/// CPU/GPU ordering can no longer be guaranteed.
#[derive(Clone, Copy, PartialEq, Eq, Structural, Debug)]
pub enum SyncError {
    /// The completion event could not be attached to the fence.
    WaitRegistrationFailed,
}

/// Any failure the frame loop can surface to its caller.
#[derive(Clone, Copy, PartialEq, Eq, Structural, Debug)]
pub enum FrameError {
    /// Startup object creation failed.
    Creation(CreationError),
    /// Recording or submitting the frame's commands failed.
    Submission(SubmissionError),
    /// Presenting the finished frame failed.
    Present(PresentError),
    /// Registering a fence wait failed.
    Sync(SyncError),
}

} // verus!

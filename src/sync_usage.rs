use vstd::prelude::*;

verus! {

/// The role a semaphore plays within one frame slot.
#[derive(Debug, Clone, Copy, PartialEq, Eq, Hash, Structural)]
pub enum SemaphoreUsage {
    /// Signalled by the presentation engine when the acquired image may be drawn to.
    ImageAvailable(usize),
    /// Signalled by the queue when the frame slot's rendering is complete.
    RenderFinished(usize),
}

/// The role a fence plays: one per frame slot, or the "last used by" fence of
/// one swapchain image.
#[derive(Debug, Clone, Copy, PartialEq, Eq, Hash, Structural)]
pub enum FenceUsage {
    /// Signalled when the command buffer submitted from this frame slot has run.
    CommandBufferExec(usize),
    /// The fence of the frame slot that last submitted work on this image.
    ImageAvailable(usize),
}

} // verus!

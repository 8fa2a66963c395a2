use vstd::prelude::*;

verus! {

/// What a request for the next presentable image reported.
#[derive(Clone, Copy, Debug, PartialEq, Eq, Structural)]
pub enum AcquireOutcome {
    /// An image was handed out. `suboptimal` means it can still be drawn to,
    /// but the swapchain no longer matches the surface well.
    Acquired { image: usize, suboptimal: bool },
    /// The swapchain no longer matches the surface and cannot be used.
    OutOfDate,
    /// Any other failure; treated as transient.
    Failed,
}

/// What a request for a new swapchain generation reported.
///
/// `R` is whatever the caller keeps per swapchain image (for instance the
/// command buffer recorded against that image's framebuffer).
pub enum RebuildOutcome<R> {
    /// A new generation, with one entry per image of the new swapchain.
    Rebuilt(Vec<R>),
    /// The surface's current extent cannot back a swapchain (a minimized
    /// window reports a zero extent); the old generation stays in use.
    ExtentUnsupported,
}

/// What executing, presenting and signalling one frame reported.
///
/// `S` is the caller's completion signal (a fence that resolves once the
/// presentation of the frame has finished).
pub enum SubmitOutcome<S> {
    /// Work was submitted and presented; the signal resolves when it is done.
    Signaled(S),
    /// The command buffer could not be chained for execution.
    ExecuteFailed,
    /// Presentation reported that the swapchain is out of date.
    PresentOutOfDate,
    /// Presentation failed for any other reason.
    PresentFailed,
}

impl<R> RebuildOutcome<R> {
    /// A rebuilt generation always has at least one image.
    pub open spec fn valid(&self) -> bool {
        match self {
            RebuildOutcome::Rebuilt(v) => v@.len() > 0,
            RebuildOutcome::ExtentUnsupported => true,
        }
    }
}

} // verus!

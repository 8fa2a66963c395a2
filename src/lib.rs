//! Frame pacing for a swapchain-based renderer.
//!
//! The graphics work itself (acquiring images, executing command buffers,
//! presenting, waiting on fences) happens outside this crate. What lives here
//! is the controller that decides, step by step, what the render loop does
//! next: when the swapchain must be rebuilt, which frame slot is in use, which
//! completion signal must be waited on before a slot is reused, and which one
//! the next submission is chained after. It also ranks the physical devices
//! that the driver reports and picks the one to render with.

mod device;
mod laws;
mod outcome;
mod pacer;

pub use device::{
    eligible, first_graphics_family, kind_rank, rank, select_device, DeviceInfo, DeviceKind,
};
pub use laws::{
    admissible, admissible_run, after_top, at_rest, before_submit, calm, in_flight, iterate,
    lemma_back_pressure, lemma_degenerate_rebuild_keeps_generation, lemma_generation_consistent,
    lemma_iterate_at_rest, lemma_resize_converges, lemma_run_at_rest, run, Tick,
};
pub use outcome::{AcquireOutcome, RebuildOutcome, SubmitOutcome};
pub use pacer::{no_signals, FrameLoop, LoopState, Phase};

//! Decision logic for a small swapchain presentation loop: which GPU and queue
//! family to use, how the swapchain, render pass and pipeline are configured,
//! what each command buffer records, and the per-frame scheduling state machine
//! that bounds in-flight frames and decides when resources are recreated.

pub mod device;
pub mod pipeline;
pub mod recorder;
pub mod scheduler;
pub mod surface;

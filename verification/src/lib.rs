//! A cooperative per-task deadline for agent loops.
//!
//! A [`Deadline`] is a point on the monotonic clock, or the sentinel
//! [`Deadline::never`] that never fires. Code checks it between steps and hands
//! the remaining time to downstream calls as their timeout. Nothing is
//! preempted.
mod clock;
pub mod deadline;
pub mod duration;
pub mod laws;

pub use deadline::{Deadline, DeadlineExceeded};
pub use duration::Duration;

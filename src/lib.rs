//! A tick-indexed step buffer for lockstep simulations.
//!
//! Each tick carries a batch of per-participant steps. The buffer hands the
//! batches out in strict, gap-free tick order and lets a lagging consumer
//! discard stale ticks, either below a tick boundary or by count.

pub mod buffer;
pub mod laws;
pub mod model;
pub mod step;
pub mod tick;

pub use buffer::{StepInfo, Steps, TICK_ID_MAX};
pub use model::StepsModel;
pub use step::{Deserialize, ParticipantStep, ParticipantSteps, Step};

//! A staged, checkpointed, reversible execution pipeline.
//!
//! A pipeline is an ordered list of stages. A forward pass advances the
//! stages, in order, toward a target position; an unwind pass takes them
//! back, in reverse order, to an earlier position. After every step of a
//! stage its checkpoint is made durable, so that a pass that fails leaves
//! a state from which a later pass resumes.

pub mod checkpoint;
pub mod pass;
pub mod pipeline;
pub mod stage;
pub mod store;
pub mod trace;

pub use checkpoint::{BlockNumber, StageCheckpoint, StageId};
pub use pass::{Action, Event, Failure, Goal, Pass, Phase, Turn};
pub use pipeline::{Pipeline, PipelineError};
pub use stage::{
    poll_verdict, ExecInput, ExecOutput, PollVerdict, Readiness, ReadinessTimeout, Stage,
    StageError, StageExt, UnwindInput, UnwindOutput,
};
pub use store::{CheckpointStore, MemoryStore, StoreError};

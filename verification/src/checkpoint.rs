//! Positions, stage identifiers and checkpoints.

use vstd::prelude::*;

verus! {

/// A position in the chain of data a pipeline works through. Positions are
/// totally ordered; the order decides whether a stage is behind, at or ahead
/// of a target.
pub type BlockNumber = u64;

/// The stable, unique name of a stage. A stage's checkpoint is kept under it.
#[derive(Debug, Clone, Copy, PartialEq, Eq, Hash, Structural)]
pub struct StageId(pub u64);

/// How far a stage has got: a position, and a payload that only the stage
/// itself interprets. A recorded checkpoint is never changed; a later one
/// takes its place.
#[derive(Debug, Clone, Copy, PartialEq, Eq, Structural)]
pub struct StageCheckpoint {
    /// The position reached.
    pub block_number: BlockNumber,
    /// What the stage wants to find again when it resumes from here.
    pub stage_checkpoint: Option<u64>,
}

impl StageCheckpoint {
    /// A checkpoint at `block_number` without a payload.
    pub fn new(block_number: BlockNumber) -> (checkpoint: Self)
        ensures
            checkpoint == (StageCheckpoint { block_number, stage_checkpoint: None }),
    {
        StageCheckpoint { block_number, stage_checkpoint: None }
    }
}

impl Default for StageCheckpoint {
    fn default() -> (checkpoint: Self)
        ensures
            checkpoint == (StageCheckpoint { block_number: 0, stage_checkpoint: None }),
    {
        StageCheckpoint { block_number: 0, stage_checkpoint: None }
    }
}

/// The position of an optional checkpoint; a stage that never ran stands at
/// the beginning.
pub open spec fn position_of(checkpoint: Option<StageCheckpoint>) -> nat {
    match checkpoint {
        Some(c) => c.block_number as nat,
        None => 0,
    }
}

} // verus!

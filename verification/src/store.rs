//! The checkpoint store: one checkpoint per stage, kept under the stage's id.

use crate::checkpoint::{StageCheckpoint, StageId};
use std::collections::HashMap;
use vstd::prelude::*;

verus! {

/// The store could not make a checkpoint durable.
#[derive(Debug, Clone, Copy, PartialEq, Eq, Structural)]
pub struct StoreError {
    /// What the store reports about the failure.
    pub code: u64,
}

/// What a store holds for `id`.
pub open spec fn lookup(checkpoints: Map<StageId, StageCheckpoint>, id: StageId) -> Option<
    StageCheckpoint,
> {
    if checkpoints.contains_key(id) {
        Some(checkpoints[id])
    } else {
        None
    }
}

/// Durable storage of the latest checkpoint of each stage.
///
/// `put` has to be durable when it returns `Ok`: the driver runs a stage's
/// post-commit hook right after it.
pub trait CheckpointStore {
    /// The checkpoints held, by stage. A store that does not say what it
    /// holds holds nothing: it finds no checkpoint and accepts none.
    open spec fn checkpoints(&self) -> Map<StageId, StageCheckpoint> {
        Map::empty()
    }

    /// The checkpoint last put under `id`, if there is one.
    fn get(&self, id: StageId) -> (found: Option<StageCheckpoint>)
        ensures
            found == lookup(self.checkpoints(), id),
    ;

    /// Replaces the checkpoint of `id`. On failure nothing has changed.
    fn put(&mut self, id: StageId, checkpoint: StageCheckpoint) -> (stored: Result<(), StoreError>)
        ensures
            stored is Ok ==> final(self).checkpoints() == old(self).checkpoints().insert(
                id,
                checkpoint,
            ),
            stored is Err ==> final(self).checkpoints() == old(self).checkpoints(),
    ;
}

/// A checkpoint store in memory. It never fails.
pub struct MemoryStore {
    entries: HashMap<u64, StageCheckpoint>,
}

impl MemoryStore {
    /// A store without checkpoints.
    pub fn new() -> (store: Self)
        ensures
            store.checkpoints() == Map::<StageId, StageCheckpoint>::empty(),
    {
        let store = MemoryStore { entries: HashMap::new() };
        assert(store.checkpoints() =~= Map::<StageId, StageCheckpoint>::empty());
        store
    }
}

impl CheckpointStore for MemoryStore {
    closed spec fn checkpoints(&self) -> Map<StageId, StageCheckpoint> {
        Map::new(
            |id: StageId| self.entries@.contains_key(id.0),
            |id: StageId| self.entries@[id.0],
        )
    }

    fn get(&self, id: StageId) -> (found: Option<StageCheckpoint>) {
        match self.entries.get(&id.0) {
            Some(checkpoint) => Some(*checkpoint),
            None => None,
        }
    }

    fn put(&mut self, id: StageId, checkpoint: StageCheckpoint) -> (stored: Result<(), StoreError>)
        ensures
            stored is Ok,
    {
        self.entries.insert(id.0, checkpoint);
        assert(self.checkpoints() =~= old(self).checkpoints().insert(id, checkpoint));
        Ok(())
    }
}

} // verus!

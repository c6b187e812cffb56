use stage_pipeline::pipeline::has_id;
use stage_pipeline::{
    Action, CheckpointStore, Event, ExecInput, ExecOutput, MemoryStore, Pass, Phase, Pipeline,
    PipelineError, Readiness, ReadinessTimeout, Stage, StageCheckpoint, StageError, StageId,
    StoreError, Turn, UnwindInput, UnwindOutput,
};
use std::collections::BTreeSet;
use std::sync::{Arc, Mutex};

/// What the stages of a test share: the calls in the order in which they
/// came, and the blocks that each stage has worked through.
#[derive(Default)]
struct Ledger {
    calls: Vec<String>,
    blocks: Vec<(u64, u64)>,
}

type Shared = Arc<Mutex<Ledger>>;

fn calls(shared: &Shared) -> Vec<String> {
    shared.lock().unwrap().calls.clone()
}

fn blocks_of(shared: &Shared, stage: u64) -> BTreeSet<u64> {
    let ledger = shared.lock().unwrap();
    let all: Vec<u64> = ledger.blocks.iter().filter(|b| b.0 == stage).map(|b| b.1).collect();
    let distinct: BTreeSet<u64> = all.iter().copied().collect();
    assert_eq!(all.len(), distinct.len(), "a block was worked through twice");
    distinct
}

/// A stage that works through the blocks from its checkpoint to the target,
/// one call at a time, and can be told to stop early or to fail.
#[derive(Default)]
struct Worker {
    id: u64,
    name: &'static str,
    /// Where the next executions stop early, first call first.
    stops: Vec<u64>,
    pending_polls: u64,
    polls: u64,
    fail_execute: Option<u64>,
    fail_unwind: Option<u64>,
    fail_post_execute: Option<u64>,
    fail_post_unwind: Option<u64>,
}

fn worker(id: u64, name: &'static str) -> Worker {
    Worker { id, name, ..Worker::default() }
}

impl Stage<Shared> for Worker {
    fn id(&self) -> StageId {
        StageId(self.id)
    }

    fn poll_execute_ready(&mut self, _input: ExecInput) -> Readiness {
        self.polls += 1;
        if self.polls > self.pending_polls {
            Readiness::Ready
        } else {
            Readiness::Pending
        }
    }

    fn execute(&mut self, provider: &Shared, input: ExecInput) -> Result<ExecOutput, StageError> {
        let mut ledger = provider.lock().unwrap();
        let from = input.checkpoint.map(|c| c.block_number).unwrap_or(0);
        ledger.calls.push(format!("execute {} from {} to {:?}", self.name, from, input.target));
        if let Some(code) = self.fail_execute {
            return Err(StageError { code });
        }
        let goal = input.target.unwrap_or(from + 10);
        let to = if self.stops.is_empty() { goal } else { self.stops.remove(0).min(goal) };
        for block in from + 1..=to {
            ledger.blocks.push((self.id, block));
        }
        Ok(ExecOutput {
            checkpoint: StageCheckpoint { block_number: to, stage_checkpoint: Some(self.id) },
            done: to == goal,
        })
    }

    fn post_execute_commit(&mut self) -> Result<(), StageError> {
        match self.fail_post_execute {
            Some(code) => Err(StageError { code }),
            None => Ok(()),
        }
    }

    fn unwind(&mut self, provider: &Shared, input: UnwindInput) -> Result<UnwindOutput, StageError> {
        let mut ledger = provider.lock().unwrap();
        ledger.calls.push(format!(
            "unwind {} from {} to {} for {:?}",
            self.name, input.checkpoint.block_number, input.unwind_to, input.bad_block
        ));
        if let Some(code) = self.fail_unwind {
            return Err(StageError { code });
        }
        let id = self.id;
        ledger.blocks.retain(|b| b.0 != id || b.1 <= input.unwind_to);
        Ok(UnwindOutput { checkpoint: StageCheckpoint::new(input.unwind_to) })
    }

    fn post_unwind_commit(&mut self) -> Result<(), StageError> {
        match self.fail_post_unwind {
            Some(code) => Err(StageError { code }),
            None => Ok(()),
        }
    }
}

/// A store that keeps nothing.
struct Broken;

impl CheckpointStore for Broken {
    fn get(&self, _id: StageId) -> Option<StageCheckpoint> {
        None
    }

    fn put(&mut self, _id: StageId, _checkpoint: StageCheckpoint) -> Result<(), StoreError> {
        Err(StoreError { code: 77 })
    }
}

/// A store that holds what it was given and takes nothing more.
struct Sealed {
    kept: MemoryStore,
}

impl CheckpointStore for Sealed {
    fn get(&self, id: StageId) -> Option<StageCheckpoint> {
        self.kept.get(id)
    }

    fn put(&mut self, _id: StageId, _checkpoint: StageCheckpoint) -> Result<(), StoreError> {
        Err(StoreError { code: 78 })
    }
}

fn pipeline_of(stages: Vec<Worker>, retries: u64) -> (Pipeline<Shared, Worker, MemoryStore>, Shared) {
    let shared = Shared::default();
    let mut pipeline = Pipeline::new(shared.clone(), MemoryStore::new(), retries);
    for stage in stages {
        assert!(pipeline.push(stage).is_ok());
    }
    (pipeline, shared)
}

fn abc() -> Vec<Worker> {
    vec![worker(1, "A"), worker(2, "B"), worker(3, "C")]
}

fn position(pipeline: &Pipeline<Shared, Worker, MemoryStore>, id: u64) -> Option<u64> {
    pipeline.checkpoint(StageId(id)).map(|c| c.block_number)
}

#[test]
fn a_pipeline_without_stages_has_nothing_to_do() {
    let (mut pipeline, shared) = pipeline_of(vec![], 0);
    assert_eq!(pipeline.len(), 0);
    assert_eq!(pipeline.run_forward(Some(100)), Ok(()));
    assert_eq!(pipeline.run_unwind(0, None), Ok(()));
    assert!(calls(&shared).is_empty());
    assert!(pipeline.reached(100));
}

#[test]
fn push_takes_each_id_once() {
    let (mut pipeline, _) = pipeline_of(vec![], 0);
    assert_eq!(pipeline.push(worker(1, "A")).ok(), Some(StageId(1)));
    assert_eq!(pipeline.push(worker(2, "B")).ok(), Some(StageId(2)));
    let refused = pipeline.push(worker(1, "again")).err().unwrap();
    assert_eq!(refused.name, "again");
    assert_eq!(pipeline.len(), 2);
}

#[test]
fn a_forward_pass_runs_the_stages_in_order() {
    let (mut pipeline, shared) = pipeline_of(abc(), 0);
    assert_eq!(pipeline.run_forward(Some(50)), Ok(()));
    assert_eq!(
        calls(&shared),
        vec!["execute A from 0 to Some(50)", "execute B from 0 to Some(50)", "execute C from 0 to Some(50)"]
    );
    for id in [1, 2, 3] {
        assert_eq!(
            pipeline.checkpoint(StageId(id)),
            Some(StageCheckpoint { block_number: 50, stage_checkpoint: Some(id) })
        );
    }
    assert!(pipeline.reached(50));
    assert!(!pipeline.reached(51));
}

#[test]
fn a_stage_without_target_stops_where_it_sees_fit() {
    let (mut pipeline, shared) = pipeline_of(vec![worker(1, "A")], 0);
    assert_eq!(pipeline.run_forward(None), Ok(()));
    assert_eq!(position(&pipeline, 1), Some(10));
    assert_eq!(pipeline.run_forward(None), Ok(()));
    assert_eq!(position(&pipeline, 1), Some(20));
    assert_eq!(calls(&shared), vec!["execute A from 0 to None", "execute A from 10 to None"]);
}

#[test]
fn a_partial_execution_is_resumed_by_the_next_pass() {
    // Stage A has no checkpoint and the target is 100. The first execution
    // gets to 40 and is not done; the second, from 40, gets to 100.
    let mut a = worker(1, "A");
    a.stops = vec![40];
    let (mut pipeline, shared) = pipeline_of(vec![a], 0);
    assert_eq!(pipeline.checkpoint(StageId(1)), None);

    assert_eq!(pipeline.run_forward(Some(100)), Ok(()));
    assert_eq!(position(&pipeline, 1), Some(40));
    assert!(!pipeline.reached(100));

    assert_eq!(pipeline.run_forward(Some(100)), Ok(()));
    assert_eq!(position(&pipeline, 1), Some(100));
    assert!(pipeline.reached(100));
    assert_eq!(
        calls(&shared),
        vec!["execute A from 0 to Some(100)", "execute A from 40 to Some(100)"]
    );

    // The same as one run straight to 100.
    let (mut direct, direct_shared) = pipeline_of(vec![worker(1, "A")], 0);
    assert_eq!(direct.run_forward(Some(100)), Ok(()));
    assert_eq!(direct.checkpoint(StageId(1)), pipeline.checkpoint(StageId(1)));
    assert_eq!(blocks_of(&direct_shared, 1), blocks_of(&shared, 1));
    assert_eq!(blocks_of(&shared, 1), (1..=100).collect::<BTreeSet<u64>>());
}

#[test]
fn a_forward_pass_ends_with_the_first_stage_that_is_not_done() {
    let mut stages = abc();
    stages[1].stops = vec![30];
    let (mut pipeline, shared) = pipeline_of(stages, 0);
    assert_eq!(pipeline.run_forward(Some(50)), Ok(()));
    assert_eq!(position(&pipeline, 1), Some(50));
    assert_eq!(position(&pipeline, 2), Some(30));
    assert_eq!(position(&pipeline, 3), None);
    assert_eq!(calls(&shared), vec!["execute A from 0 to Some(50)", "execute B from 0 to Some(50)"]);

    // The next pass takes B up again, and only then comes to C.
    assert_eq!(pipeline.run_forward(Some(50)), Ok(()));
    assert_eq!(position(&pipeline, 2), Some(50));
    assert_eq!(position(&pipeline, 3), Some(50));
    assert_eq!(
        calls(&shared)[2..],
        ["execute A from 50 to Some(50)", "execute B from 30 to Some(50)", "execute C from 0 to Some(50)"]
    );
}

#[test]
fn an_unwind_pass_runs_the_stages_in_reverse_order() {
    // Stages A, B and C all stand at 50.
    let (mut pipeline, shared) = pipeline_of(abc(), 0);
    assert_eq!(pipeline.run_forward(Some(50)), Ok(()));
    shared.lock().unwrap().calls.clear();

    assert_eq!(pipeline.run_unwind(20, None), Ok(()));
    assert_eq!(
        calls(&shared),
        vec![
            "unwind C from 50 to 20 for None",
            "unwind B from 50 to 20 for None",
            "unwind A from 50 to 20 for None"
        ]
    );
    for id in [1, 2, 3] {
        assert_eq!(pipeline.checkpoint(StageId(id)), Some(StageCheckpoint::new(20)));
        assert_eq!(blocks_of(&shared, id), (1..=20).collect::<BTreeSet<u64>>());
    }
}

#[test]
fn an_unwind_pass_hands_on_the_bad_block() {
    let (mut pipeline, shared) = pipeline_of(vec![worker(1, "A")], 0);
    assert_eq!(pipeline.run_forward(Some(50)), Ok(()));
    assert_eq!(pipeline.run_unwind(20, Some(21)), Ok(()));
    assert_eq!(calls(&shared)[1], "unwind A from 50 to 20 for Some(21)");
}

#[test]
fn an_unwind_pass_leaves_out_stages_at_or_below_the_goal() {
    let mut stages = abc();
    stages[1].stops = vec![20];
    let (mut pipeline, shared) = pipeline_of(stages, 0);
    // A stands at 50, B at 20, C has no checkpoint.
    assert_eq!(pipeline.run_forward(Some(50)), Ok(()));
    shared.lock().unwrap().calls.clear();

    assert_eq!(pipeline.run_unwind(20, None), Ok(()));
    assert_eq!(calls(&shared), vec!["unwind A from 50 to 20 for None"]);
    assert_eq!(pipeline.checkpoint(StageId(1)), Some(StageCheckpoint::new(20)));
    assert_eq!(
        pipeline.checkpoint(StageId(2)),
        Some(StageCheckpoint { block_number: 20, stage_checkpoint: Some(2) })
    );
    assert_eq!(pipeline.checkpoint(StageId(3)), None);

    // Nothing stands above 20 any more.
    shared.lock().unwrap().calls.clear();
    assert_eq!(pipeline.run_unwind(20, None), Ok(()));
    assert!(calls(&shared).is_empty());
}

#[test]
fn unwinding_and_executing_again_restores_the_position() {
    let (mut pipeline, shared) = pipeline_of(abc(), 0);
    assert_eq!(pipeline.run_forward(Some(50)), Ok(()));
    let blocks = blocks_of(&shared, 2);
    assert_eq!(pipeline.run_unwind(20, None), Ok(()));
    assert_eq!(position(&pipeline, 2), Some(20));
    assert_eq!(pipeline.run_forward(Some(50)), Ok(()));
    for id in [1, 2, 3] {
        assert_eq!(position(&pipeline, id), Some(50));
    }
    assert_eq!(blocks_of(&shared, 2), blocks);
}

#[test]
fn a_failing_stage_ends_the_forward_pass() {
    // Stage B fails. A is committed at its new position; B and C stay where
    // they were before the pass.
    let (mut pipeline, shared) = pipeline_of(abc(), 0);
    assert_eq!(pipeline.run_forward(Some(10)), Ok(()));
    shared.lock().unwrap().calls.clear();
    let (mut pipeline, shared) = {
        // The same stages, with B failing from now on.
        let mut stages = abc();
        stages[1].fail_execute = Some(5);
        let mut store = MemoryStore::new();
        for id in [1, 2, 3] {
            store.put(StageId(id), pipeline.checkpoint(StageId(id)).unwrap()).unwrap();
        }
        let mut next = Pipeline::new(shared.clone(), store, 0);
        for stage in stages {
            assert!(next.push(stage).is_ok());
        }
        (next, shared)
    };

    let result = pipeline.run_forward(Some(30));
    assert_eq!(
        result,
        Err(PipelineError::Stage {
            stage: StageId(2),
            phase: Phase::Executing,
            error: StageError { code: 5 }
        })
    );
    let error = result.unwrap_err();
    assert_eq!(error.stage(), StageId(2));
    assert!(!error.after_commit());
    assert_eq!(position(&pipeline, 1), Some(30));
    assert_eq!(position(&pipeline, 2), Some(10));
    assert_eq!(position(&pipeline, 3), Some(10));
    assert_eq!(calls(&shared), vec!["execute A from 10 to Some(30)", "execute B from 10 to Some(30)"]);
}

#[test]
fn a_failing_hook_leaves_the_checkpoint_committed() {
    let mut stages = abc();
    stages[1].fail_post_execute = Some(6);
    let (mut pipeline, shared) = pipeline_of(stages, 0);
    let error = pipeline.run_forward(Some(30)).unwrap_err();
    assert_eq!(
        error,
        PipelineError::Stage {
            stage: StageId(2),
            phase: Phase::PostCommit,
            error: StageError { code: 6 }
        }
    );
    assert!(error.after_commit());
    assert_eq!(position(&pipeline, 1), Some(30));
    assert_eq!(position(&pipeline, 2), Some(30));
    assert_eq!(position(&pipeline, 3), None);
    assert_eq!(calls(&shared).len(), 2);
}

#[test]
fn a_failing_store_ends_the_pass() {
    let shared = Shared::default();
    let mut pipeline = Pipeline::new(shared.clone(), Broken, 0);
    assert!(pipeline.push(worker(1, "A")).is_ok());
    assert!(pipeline.push(worker(2, "B")).is_ok());
    let error = pipeline.run_forward(Some(30)).unwrap_err();
    assert_eq!(error, PipelineError::Store { stage: StageId(1), error: StoreError { code: 77 } });
    assert_eq!(error.stage(), StageId(1));
    assert!(!error.after_commit());
    assert_eq!(pipeline.checkpoint(StageId(1)), None);
    assert_eq!(calls(&shared), vec!["execute A from 0 to Some(30)"]);
}

#[test]
fn a_stage_that_stays_pending_times_out() {
    let mut stages = abc();
    stages[1].pending_polls = 5;
    let (mut pipeline, shared) = pipeline_of(stages, 2);
    let error = pipeline.run_forward(Some(30)).unwrap_err();
    assert_eq!(error, PipelineError::ReadinessTimeout { stage: StageId(2) });
    assert_eq!(error.stage(), StageId(2));
    assert_eq!(position(&pipeline, 1), Some(30));
    assert_eq!(position(&pipeline, 2), None);
    assert_eq!(calls(&shared), vec!["execute A from 0 to Some(30)"]);

    // Three polls were made; two more and the stage is ready.
    assert_eq!(pipeline.run_forward(Some(30)), Ok(()));
    assert_eq!(position(&pipeline, 2), Some(30));
    assert_eq!(position(&pipeline, 3), Some(30));
}

#[test]
fn a_pending_stage_is_polled_again_within_the_retries() {
    let mut a = worker(1, "A");
    a.pending_polls = 3;
    let (mut pipeline, _) = pipeline_of(vec![a], 3);
    assert_eq!(pipeline.run_forward(Some(30)), Ok(()));
    assert_eq!(position(&pipeline, 1), Some(30));
}

#[test]
fn a_failing_stage_ends_the_unwind_pass() {
    let (mut pipeline, shared) = pipeline_of(abc(), 0);
    assert_eq!(pipeline.run_forward(Some(50)), Ok(()));
    let mut stages = abc();
    stages[1].fail_unwind = Some(8);
    let mut store = MemoryStore::new();
    for id in [1, 2, 3] {
        store.put(StageId(id), pipeline.checkpoint(StageId(id)).unwrap()).unwrap();
    }
    let mut pipeline = Pipeline::new(shared.clone(), store, 0);
    for stage in stages {
        assert!(pipeline.push(stage).is_ok());
    }
    shared.lock().unwrap().calls.clear();

    let error = pipeline.run_unwind(20, Some(21)).unwrap_err();
    assert_eq!(
        error,
        PipelineError::Stage {
            stage: StageId(2),
            phase: Phase::Unwinding,
            error: StageError { code: 8 }
        }
    );
    assert!(!error.after_commit());
    assert_eq!(position(&pipeline, 3), Some(20));
    assert_eq!(position(&pipeline, 2), Some(50));
    assert_eq!(position(&pipeline, 1), Some(50));
    assert_eq!(
        calls(&shared),
        vec!["unwind C from 50 to 20 for Some(21)", "unwind B from 50 to 20 for Some(21)"]
    );
}

#[test]
fn a_failing_unwind_hook_leaves_the_checkpoint_committed() {
    let mut stages = abc();
    stages[1].fail_post_unwind = Some(9);
    let (mut pipeline, _) = pipeline_of(stages, 0);
    assert_eq!(pipeline.run_forward(Some(50)), Ok(()));
    let error = pipeline.run_unwind(20, None).unwrap_err();
    assert_eq!(
        error,
        PipelineError::Stage {
            stage: StageId(2),
            phase: Phase::PostCommit,
            error: StageError { code: 9 }
        }
    );
    assert!(error.after_commit());
    assert_eq!(position(&pipeline, 3), Some(20));
    assert_eq!(position(&pipeline, 2), Some(20));
    assert_eq!(position(&pipeline, 1), Some(50));
}

/// A stage of another kind, to stand beside a `Worker` in one pipeline.
struct Marker;

impl Stage<Shared> for Marker {
    fn id(&self) -> StageId {
        StageId(9)
    }

    fn execute(&mut self, provider: &Shared, input: ExecInput) -> Result<ExecOutput, StageError> {
        provider.lock().unwrap().calls.push("execute marker".to_string());
        let at = input.target.unwrap_or(0);
        Ok(ExecOutput { checkpoint: StageCheckpoint::new(at), done: true })
    }

    fn unwind(&mut self, provider: &Shared, input: UnwindInput) -> Result<UnwindOutput, StageError> {
        provider.lock().unwrap().calls.push("unwind marker".to_string());
        Ok(UnwindOutput { checkpoint: StageCheckpoint::new(input.unwind_to) })
    }
}

#[test]
fn a_pipeline_holds_boxed_stages_of_different_kinds() {
    let shared = Shared::default();
    let mut pipeline: Pipeline<Shared, Box<dyn Stage<Shared>>, MemoryStore> =
        Pipeline::new(shared.clone(), MemoryStore::new(), 0);
    assert!(pipeline.push(Box::new(worker(1, "A"))).is_ok());
    assert!(pipeline.push(Box::new(Marker)).is_ok());
    assert!(pipeline.push(Box::new(Marker)).is_err());
    assert_eq!(pipeline.len(), 2);

    assert_eq!(pipeline.run_forward(Some(7)), Ok(()));
    assert_eq!(pipeline.run_unwind(3, None), Ok(()));
    assert_eq!(
        calls(&shared),
        vec!["execute A from 0 to Some(7)", "execute marker", "unwind marker", "unwind A from 7 to 3 for None"]
    );
    assert_eq!(pipeline.checkpoint(StageId(1)), Some(StageCheckpoint::new(3)));
    assert_eq!(pipeline.checkpoint(StageId(9)), Some(StageCheckpoint::new(3)));
}

#[test]
fn a_failing_store_ends_the_unwind_pass() {
    let mut kept = MemoryStore::new();
    for id in [1, 2, 3] {
        kept.put(StageId(id), StageCheckpoint::new(50)).unwrap();
    }
    let shared = Shared::default();
    let mut pipeline = Pipeline::new(shared.clone(), Sealed { kept }, 0);
    for stage in abc() {
        assert!(pipeline.push(stage).is_ok());
    }
    let error = pipeline.run_unwind(20, None).unwrap_err();
    assert_eq!(error, PipelineError::Store { stage: StageId(3), error: StoreError { code: 78 } });
    assert!(!error.after_commit());
    for id in [1, 2, 3] {
        assert_eq!(pipeline.checkpoint(StageId(id)), Some(StageCheckpoint::new(50)));
    }
    assert_eq!(calls(&shared), vec!["unwind C from 50 to 20 for None"]);
}

#[test]
fn a_stage_without_checkpoint_stands_at_the_beginning() {
    let (mut pipeline, _) = pipeline_of(abc(), 0);
    assert!(pipeline.reached(0));
    assert!(!pipeline.reached(1));
    assert_eq!(pipeline.run_unwind(0, None), Ok(()));
    assert_eq!(pipeline.checkpoint(StageId(1)), None);
}

#[test]
fn has_id_finds_the_ids_that_are_there() {
    let ids = vec![StageId(4), StageId(2), StageId(9)];
    assert!(has_id(&ids, StageId(4)));
    assert!(has_id(&ids, StageId(9)));
    assert!(!has_id(&ids, StageId(3)));
    assert!(!has_id(&Vec::new(), StageId(4)));
}

#[test]
fn an_empty_pipeline_takes_any_stage() {
    for id in [0, 1, u64::MAX] {
        let (mut pipeline, _) = pipeline_of(vec![], 0);
        assert_eq!(pipeline.push(worker(id, "A")).ok(), Some(StageId(id)));
        assert_eq!(pipeline.len(), 1);
    }
}

#[test]
fn stages_run_in_the_order_in_which_they_were_pushed() {
    let (mut pipeline, shared) =
        pipeline_of(vec![worker(3, "first"), worker(1, "second"), worker(2, "third")], 0);
    assert_eq!(pipeline.run_forward(Some(5)), Ok(()));
    assert_eq!(
        calls(&shared),
        vec![
            "execute first from 0 to Some(5)",
            "execute second from 0 to Some(5)",
            "execute third from 0 to Some(5)"
        ]
    );
    // Each checkpoint is kept under the id of the stage that returned it.
    for id in [1, 2, 3] {
        assert_eq!(
            pipeline.checkpoint(StageId(id)),
            Some(StageCheckpoint { block_number: 5, stage_checkpoint: Some(id) })
        );
    }
}

#[test]
fn perform_stops_without_doing_anything() {
    let (mut pipeline, shared) = pipeline_of(abc(), 0);
    assert_eq!(pipeline.perform(Action::Stop), None);
    assert!(calls(&shared).is_empty());
}

#[test]
fn perform_reads_and_puts_under_the_id_of_the_stage() {
    let (mut pipeline, shared) = pipeline_of(abc(), 0);
    assert_eq!(pipeline.perform(Action::Load { stage: 1 }), Some(Event::Loaded(None)));
    let checkpoint = StageCheckpoint::new(33);
    assert_eq!(
        pipeline.perform(Action::Persist { stage: 1, checkpoint }),
        Some(Event::Persisted(Ok(())))
    );
    assert_eq!(pipeline.checkpoint(StageId(2)), Some(checkpoint));
    assert_eq!(pipeline.checkpoint(StageId(1)), None);
    assert_eq!(pipeline.perform(Action::Load { stage: 1 }), Some(Event::Loaded(Some(checkpoint))));
    assert!(calls(&shared).is_empty());
}

#[test]
fn perform_calls_the_stage_that_the_action_names() {
    let mut stages = abc();
    stages[2].fail_post_execute = Some(6);
    stages[2].fail_post_unwind = Some(9);
    let (mut pipeline, shared) = pipeline_of(stages, 0);
    let input = ExecInput { target: Some(8), checkpoint: Some(StageCheckpoint::new(3)) };
    assert_eq!(
        pipeline.perform(Action::Execute { stage: 1, input }),
        Some(Event::Executed(Ok(ExecOutput {
            checkpoint: StageCheckpoint { block_number: 8, stage_checkpoint: Some(2) },
            done: true
        })))
    );
    let input =
        UnwindInput { checkpoint: StageCheckpoint::new(8), unwind_to: 5, bad_block: Some(6) };
    assert_eq!(
        pipeline.perform(Action::Unwind { stage: 0, input }),
        Some(Event::Unwound(Ok(UnwindOutput { checkpoint: StageCheckpoint::new(5) })))
    );
    assert_eq!(calls(&shared), vec!["execute B from 3 to Some(8)", "unwind A from 8 to 5 for Some(6)"]);
    // Nothing was put into the store on the way.
    for id in [1, 2, 3] {
        assert_eq!(pipeline.checkpoint(StageId(id)), None);
    }
    assert_eq!(
        pipeline.perform(Action::PostExecuteCommit { stage: 0 }),
        Some(Event::Hooked(Ok(())))
    );
    assert_eq!(
        pipeline.perform(Action::PostExecuteCommit { stage: 2 }),
        Some(Event::Hooked(Err(StageError { code: 6 })))
    );
    assert_eq!(
        pipeline.perform(Action::PostUnwindCommit { stage: 2 }),
        Some(Event::Hooked(Err(StageError { code: 9 })))
    );
}

#[test]
fn perform_waits_for_readiness_within_the_retries() {
    let mut stages = abc();
    stages[0].pending_polls = 4;
    let (mut pipeline, _) = pipeline_of(stages, 2);
    let input = ExecInput { target: Some(8), checkpoint: None };
    assert_eq!(
        pipeline.perform(Action::AwaitReady { stage: 0, input }),
        Some(Event::Readied(Err(ReadinessTimeout { retries: 2 })))
    );
    // Three polls are used up; the fifth finds the stage ready.
    assert_eq!(
        pipeline.perform(Action::AwaitReady { stage: 0, input }),
        Some(Event::Readied(Ok(())))
    );
    assert_eq!(
        pipeline.perform(Action::AwaitReady { stage: 1, input }),
        Some(Event::Readied(Ok(())))
    );
}

#[test]
fn a_pass_taken_step_by_step_is_the_pass() {
    let (mut whole, whole_shared) = pipeline_of(abc(), 0);
    assert_eq!(whole.run_forward(Some(12)), Ok(()));

    let (mut stepped, stepped_shared) = pipeline_of(abc(), 0);
    let mut pass = Pass::forward(stepped.len(), Some(12));
    let mut steps = 0;
    while let Some(event) = stepped.perform(pass.action()) {
        pass = pass.advance(event);
        steps += 1;
    }
    assert_eq!(pass.turn, Turn::Finished);
    assert_eq!(steps, 15);
    assert_eq!(calls(&stepped_shared), calls(&whole_shared));
    for id in [1, 2, 3] {
        assert_eq!(stepped.checkpoint(StageId(id)), whole.checkpoint(StageId(id)));
    }
}

//! One pass of a pipeline as a state machine.
//!
//! A pass works on one stage at a time. In every state it waits for one
//! thing to be done outside it ([`Pass::action`]); what came of that is
//! handed back as an [`Event`], and [`Pass::advance`] decides what follows.
//! The machine calls nothing itself, so whoever runs the stages, blocking
//! or not, can have its decisions.

use crate::checkpoint::{BlockNumber, StageCheckpoint};
use crate::stage::{
    ExecInput, ExecOutput, ReadinessTimeout, StageError, UnwindInput, UnwindOutput,
};
use crate::store::StoreError;
use vstd::prelude::*;

verus! {

/// Where a stage stands within a pass.
#[derive(Debug, Clone, Copy, PartialEq, Eq, Structural)]
pub enum Phase {
    /// Nothing is under way for the stage.
    Idle,
    /// The stage is asked whether it is ready.
    Polling,
    /// The stage does its forward work.
    Executing,
    /// The stage has handed over its output; the new checkpoint is made
    /// durable.
    Committed,
    /// The checkpoint is durable; the stage's post-commit hook runs.
    PostCommit,
    /// The stage undoes its work.
    Unwinding,
    /// The stage has handed over where it unwound to; that checkpoint is made
    /// durable.
    UnwoundCommitted,
    /// The stage failed. The pass does not leave this phase.
    Failed,
}

/// What a pass is to achieve.
#[derive(Debug, Clone, Copy, PartialEq, Eq, Structural)]
pub enum Goal {
    /// Advance the stages, first to last, toward `target`.
    Forward { target: Option<BlockNumber> },
    /// Take the stages, last to first, back to `unwind_to`.
    Unwind { unwind_to: BlockNumber, bad_block: Option<BlockNumber> },
}

/// Why a stage failed.
#[derive(Debug, Clone, Copy, PartialEq, Eq, Structural)]
pub enum Failure {
    /// The stage itself reported an error.
    Stage(StageError),
    /// The checkpoint store could not keep the stage's checkpoint.
    Store(StoreError),
    /// The stage did not become ready within the polls it was allowed.
    ReadinessTimeout,
}

/// What a pass is doing with the stage in turn, with what it has to
/// remember for the next step.
#[derive(Debug, Clone, Copy, PartialEq, Eq, Structural)]
pub enum Turn {
    /// See [`Phase::Idle`]. The stage's last checkpoint is being read.
    Idle,
    /// See [`Phase::Polling`].
    Polling { input: ExecInput },
    /// See [`Phase::Executing`].
    Executing { input: ExecInput },
    /// See [`Phase::Committed`].
    Committed { checkpoint: StageCheckpoint, done: bool },
    /// See [`Phase::PostCommit`]. `done` says whether the pass goes on to
    /// the next stage afterwards.
    PostCommit { done: bool },
    /// See [`Phase::Unwinding`].
    Unwinding { input: UnwindInput },
    /// See [`Phase::UnwoundCommitted`].
    UnwoundCommitted { checkpoint: StageCheckpoint },
    /// See [`Phase::Failed`]: the phase in which the stage failed, and why.
    Failed { phase: Phase, failure: Failure },
    /// The pass is over and every stage is idle.
    Finished,
}

/// What is to be done outside the machine.
#[derive(Debug, Clone, Copy, PartialEq, Eq, Structural)]
pub enum Action {
    /// Read the stage's checkpoint from the store.
    Load { stage: usize },
    /// Wait until the stage is ready for `input`.
    AwaitReady { stage: usize, input: ExecInput },
    /// Call the stage's `execute`.
    Execute { stage: usize, input: ExecInput },
    /// Call the stage's `unwind`.
    Unwind { stage: usize, input: UnwindInput },
    /// Put `checkpoint` into the store under the stage's id.
    Persist { stage: usize, checkpoint: StageCheckpoint },
    /// Call the stage's `post_execute_commit`.
    PostExecuteCommit { stage: usize },
    /// Call the stage's `post_unwind_commit`.
    PostUnwindCommit { stage: usize },
    /// Nothing: the pass is over.
    Stop,
}

/// What came of an action.
#[derive(Debug, PartialEq, Eq)]
pub enum Event {
    /// The store held this checkpoint for the stage.
    Loaded(Option<StageCheckpoint>),
    /// The stage became ready, or did not in time.
    Readied(Result<(), ReadinessTimeout>),
    /// `execute` returned.
    Executed(Result<ExecOutput, StageError>),
    /// `unwind` returned.
    Unwound(Result<UnwindOutput, StageError>),
    /// The store kept the checkpoint, or could not.
    Persisted(Result<(), StoreError>),
    /// The post-commit hook returned.
    Hooked(Result<(), StageError>),
}

impl Action {
    /// Whether the action can be taken on a pipeline of `stages` stages: it
    /// names one of them, and an unwind does not go forward.
    pub open spec fn fits(self, stages: nat) -> bool {
        match self {
            Action::Load { stage } => stage < stages,
            Action::AwaitReady { stage, .. } => stage < stages,
            Action::Execute { stage, .. } => stage < stages,
            Action::Unwind { stage, input } => stage < stages && input.is_valid(),
            Action::Persist { stage, .. } => stage < stages,
            Action::PostExecuteCommit { stage } => stage < stages,
            Action::PostUnwindCommit { stage } => stage < stages,
            Action::Stop => true,
        }
    }
}

impl Event {
    /// Whether this event is an outcome of `action`.
    pub open spec fn answers(self, action: Action) -> bool {
        match (self, action) {
            (Event::Loaded(_), Action::Load { .. }) => true,
            (Event::Readied(_), Action::AwaitReady { .. }) => true,
            (Event::Executed(_), Action::Execute { .. }) => true,
            (Event::Unwound(_), Action::Unwind { .. }) => true,
            (Event::Persisted(_), Action::Persist { .. }) => true,
            (Event::Hooked(_), Action::PostExecuteCommit { .. }) => true,
            (Event::Hooked(_), Action::PostUnwindCommit { .. }) => true,
            _ => false,
        }
    }

    /// Whether this event is an outcome of `action` that a stage keeping its
    /// contract can have produced: an output answers the input it was given.
    pub open spec fn honors(self, action: Action) -> bool {
        match (self, action) {
            (Event::Executed(Ok(output)), Action::Execute { input, .. }) => output.answers(input),
            (Event::Unwound(Ok(output)), Action::Unwind { input, .. }) => output.answers(input),
            _ => self.answers(action),
        }
    }
}

/// A pass: its goal, the stage in turn and what is under way for it.
#[derive(Debug, Clone, Copy, PartialEq, Eq, Structural)]
pub struct Pass {
    /// What the pass is to achieve.
    pub goal: Goal,
    /// How many stages the pipeline has.
    pub stages: usize,
    /// The stage in turn; once the pass is over, the last that was.
    pub stage: usize,
    /// What is under way for that stage.
    pub turn: Turn,
}

impl Pass {
    /// The stage in turn exists, and what is remembered for it fits the goal.
    pub open spec fn wf(self) -> bool {
        &&& self.turn is Finished || self.stage < self.stages
        &&& self.turn matches Turn::Failed { phase, failure } ==> match (phase, failure) {
            (Phase::Polling, Failure::ReadinessTimeout) => self.goal is Forward,
            (Phase::Executing, Failure::Stage(_)) => self.goal is Forward,
            (Phase::Committed, Failure::Store(_)) => self.goal is Forward,
            (Phase::Unwinding, Failure::Stage(_)) => self.goal is Unwind,
            (Phase::UnwoundCommitted, Failure::Store(_)) => self.goal is Unwind,
            (Phase::PostCommit, Failure::Stage(_)) => true,
            _ => false,
        }
        &&& match self.goal {
            Goal::Forward { target } => match self.turn {
                Turn::Polling { input } => input.target == target,
                Turn::Executing { input } => input.target == target,
                Turn::Unwinding { .. } => false,
                Turn::UnwoundCommitted { .. } => false,
                _ => true,
            },
            Goal::Unwind { unwind_to, bad_block } => match self.turn {
                Turn::Unwinding { input } => {
                    &&& input.unwind_to == unwind_to
                    &&& input.bad_block == bad_block
                    &&& input.checkpoint.block_number > unwind_to
                },
                Turn::PostCommit { done } => done,
                Turn::Polling { .. } => false,
                Turn::Executing { .. } => false,
                Turn::Committed { .. } => false,
                _ => true,
            },
        }
    }

    /// Whether the pass is over: finished or failed.
    pub open spec fn is_over(self) -> bool {
        self.turn is Finished || self.turn is Failed
    }

    /// The phase of the stage in turn.
    pub open spec fn phase_of(self) -> Phase {
        match self.turn {
            Turn::Idle => Phase::Idle,
            Turn::Polling { .. } => Phase::Polling,
            Turn::Executing { .. } => Phase::Executing,
            Turn::Committed { .. } => Phase::Committed,
            Turn::PostCommit { .. } => Phase::PostCommit,
            Turn::Unwinding { .. } => Phase::Unwinding,
            Turn::UnwoundCommitted { .. } => Phase::UnwoundCommitted,
            Turn::Failed { .. } => Phase::Failed,
            Turn::Finished => Phase::Idle,
        }
    }

    /// The pass at the start of a forward pass over `stages` stages.
    pub open spec fn forward_start(stages: usize, target: Option<BlockNumber>) -> Pass {
        Pass {
            goal: Goal::Forward { target },
            stages,
            stage: 0,
            turn: if stages == 0 {
                Turn::Finished
            } else {
                Turn::Idle
            },
        }
    }

    /// The pass at the start of an unwind pass over `stages` stages.
    pub open spec fn unwind_start(
        stages: usize,
        unwind_to: BlockNumber,
        bad_block: Option<BlockNumber>,
    ) -> Pass {
        Pass {
            goal: Goal::Unwind { unwind_to, bad_block },
            stages,
            stage: if stages == 0 {
                0
            } else {
                (stages - 1) as usize
            },
            turn: if stages == 0 {
                Turn::Finished
            } else {
                Turn::Idle
            },
        }
    }

    /// What the pass waits for.
    pub open spec fn awaits(self) -> Action {
        match self.turn {
            Turn::Idle => Action::Load { stage: self.stage },
            Turn::Polling { input } => Action::AwaitReady { stage: self.stage, input },
            Turn::Executing { input } => Action::Execute { stage: self.stage, input },
            Turn::Committed { checkpoint, .. } => Action::Persist { stage: self.stage, checkpoint },
            Turn::Unwinding { input } => Action::Unwind { stage: self.stage, input },
            Turn::UnwoundCommitted { checkpoint } => Action::Persist {
                stage: self.stage,
                checkpoint,
            },
            Turn::PostCommit { .. } => match self.goal {
                Goal::Forward { .. } => Action::PostExecuteCommit { stage: self.stage },
                Goal::Unwind { .. } => Action::PostUnwindCommit { stage: self.stage },
            },
            Turn::Failed { .. } => Action::Stop,
            Turn::Finished => Action::Stop,
        }
    }

    /// The same pass with `turn` under way.
    pub open spec fn turned(self, turn: Turn) -> Pass {
        Pass { turn, ..self }
    }

    /// The pass once the stage in turn is through. A forward pass goes on
    /// to the next stage only if this one is done; an unwind pass goes on to
    /// the stage before. Where there is no stage to go on to, the pass is
    /// finished.
    pub open spec fn moved_on(self, done: bool) -> Pass {
        match self.goal {
            Goal::Forward { .. } => if done && self.stage + 1 < self.stages {
                Pass { stage: (self.stage + 1) as usize, turn: Turn::Idle, ..self }
            } else {
                self.turned(Turn::Finished)
            },
            Goal::Unwind { .. } => if 0 < self.stage {
                Pass { stage: (self.stage - 1) as usize, turn: Turn::Idle, ..self }
            } else {
                self.turned(Turn::Finished)
            },
        }
    }

    /// The pass once the checkpoint of the stage in turn has been read. A
    /// forward pass polls the stage for an execution from that checkpoint.
    /// An unwind pass unwinds the stage if its checkpoint lies above the
    /// goal, and passes it over otherwise.
    pub open spec fn entered(self, checkpoint: Option<StageCheckpoint>) -> Pass {
        match self.goal {
            Goal::Forward { target } => self.turned(
                Turn::Polling { input: ExecInput { target, checkpoint } },
            ),
            Goal::Unwind { unwind_to, bad_block } => match checkpoint {
                Some(reached) => if reached.block_number > unwind_to {
                    self.turned(
                        Turn::Unwinding {
                            input: UnwindInput { checkpoint: reached, unwind_to, bad_block },
                        },
                    )
                } else {
                    self.moved_on(true)
                },
                None => self.moved_on(true),
            },
        }
    }

    /// The pass after `event`. An event that is no outcome of what the pass
    /// waits for changes nothing.
    pub open spec fn after(self, event: Event) -> Pass {
        match (self.turn, event) {
            (Turn::Idle, Event::Loaded(checkpoint)) => self.entered(checkpoint),
            (Turn::Polling { input }, Event::Readied(Ok(_))) => self.turned(
                Turn::Executing { input },
            ),
            (Turn::Polling { .. }, Event::Readied(Err(_))) => self.turned(
                Turn::Failed { phase: Phase::Polling, failure: Failure::ReadinessTimeout },
            ),
            (Turn::Executing { .. }, Event::Executed(Ok(output))) => self.turned(
                Turn::Committed { checkpoint: output.checkpoint, done: output.done },
            ),
            (Turn::Executing { .. }, Event::Executed(Err(error))) => self.turned(
                Turn::Failed { phase: Phase::Executing, failure: Failure::Stage(error) },
            ),
            (Turn::Committed { done, .. }, Event::Persisted(Ok(_))) => self.turned(
                Turn::PostCommit { done },
            ),
            (Turn::Committed { .. }, Event::Persisted(Err(error))) => self.turned(
                Turn::Failed { phase: Phase::Committed, failure: Failure::Store(error) },
            ),
            (Turn::Unwinding { .. }, Event::Unwound(Ok(output))) => self.turned(
                Turn::UnwoundCommitted { checkpoint: output.checkpoint },
            ),
            (Turn::Unwinding { .. }, Event::Unwound(Err(error))) => self.turned(
                Turn::Failed { phase: Phase::Unwinding, failure: Failure::Stage(error) },
            ),
            (Turn::UnwoundCommitted { .. }, Event::Persisted(Ok(_))) => self.turned(
                Turn::PostCommit { done: true },
            ),
            (Turn::UnwoundCommitted { .. }, Event::Persisted(Err(error))) => self.turned(
                Turn::Failed { phase: Phase::UnwoundCommitted, failure: Failure::Store(error) },
            ),
            (Turn::PostCommit { done }, Event::Hooked(Ok(_))) => self.moved_on(done),
            (Turn::PostCommit { .. }, Event::Hooked(Err(error))) => self.turned(
                Turn::Failed { phase: Phase::PostCommit, failure: Failure::Stage(error) },
            ),
            _ => self,
        }
    }

    /// How many steps the pass can still take at most: five for every stage
    /// it has not come to, and those left for the stage in turn.
    pub open spec fn steps_left(self) -> nat {
        let ahead: int = match self.goal {
            Goal::Forward { .. } => self.stages - 1 - self.stage,
            Goal::Unwind { .. } => self.stage as int,
        };
        let here: int = match self.turn {
            Turn::Idle => 5,
            Turn::Polling { .. } => 4,
            Turn::Executing { .. } => 3,
            Turn::Unwinding { .. } => 3,
            Turn::Committed { .. } => 2,
            Turn::UnwoundCommitted { .. } => 2,
            Turn::PostCommit { .. } => 1,
            Turn::Failed { .. } => 0,
            Turn::Finished => 0,
        };
        if self.is_over() || ahead < 0 {
            0
        } else {
            (5 * ahead + here) as nat
        }
    }

    /// Starts a forward pass over `stages` stages toward `target`.
    pub fn forward(stages: usize, target: Option<BlockNumber>) -> (pass: Pass)
        ensures
            pass == Pass::forward_start(stages, target),
            pass.wf(),
    {
        Pass {
            goal: Goal::Forward { target },
            stages,
            stage: 0,
            turn: if stages == 0 {
                Turn::Finished
            } else {
                Turn::Idle
            },
        }
    }

    /// Starts an unwind pass over `stages` stages back to `unwind_to`.
    /// `bad_block` is the position that caused the unwind, if one did.
    pub fn unwind(stages: usize, unwind_to: BlockNumber, bad_block: Option<BlockNumber>) -> (pass:
        Pass)
        ensures
            pass == Pass::unwind_start(stages, unwind_to, bad_block),
            pass.wf(),
    {
        if stages == 0 {
            Pass { goal: Goal::Unwind { unwind_to, bad_block }, stages, stage: 0, turn: Turn::Finished }
        } else {
            Pass {
                goal: Goal::Unwind { unwind_to, bad_block },
                stages,
                stage: stages - 1,
                turn: Turn::Idle,
            }
        }
    }

    /// The phase of the stage in turn. After a finished pass every stage is
    /// idle.
    pub fn phase(&self) -> (phase: Phase)
        ensures
            phase == self.phase_of(),
    {
        match self.turn {
            Turn::Idle => Phase::Idle,
            Turn::Polling { .. } => Phase::Polling,
            Turn::Executing { .. } => Phase::Executing,
            Turn::Committed { .. } => Phase::Committed,
            Turn::PostCommit { .. } => Phase::PostCommit,
            Turn::Unwinding { .. } => Phase::Unwinding,
            Turn::UnwoundCommitted { .. } => Phase::UnwoundCommitted,
            Turn::Failed { .. } => Phase::Failed,
            Turn::Finished => Phase::Idle,
        }
    }

    /// What is to be done next outside the machine.
    pub fn action(&self) -> (action: Action)
        ensures
            action == self.awaits(),
    {
        match self.turn {
            Turn::Idle => Action::Load { stage: self.stage },
            Turn::Polling { input } => Action::AwaitReady { stage: self.stage, input },
            Turn::Executing { input } => Action::Execute { stage: self.stage, input },
            Turn::Committed { checkpoint, .. } => Action::Persist { stage: self.stage, checkpoint },
            Turn::Unwinding { input } => Action::Unwind { stage: self.stage, input },
            Turn::UnwoundCommitted { checkpoint } => Action::Persist {
                stage: self.stage,
                checkpoint,
            },
            Turn::PostCommit { .. } => match self.goal {
                Goal::Forward { .. } => Action::PostExecuteCommit { stage: self.stage },
                Goal::Unwind { .. } => Action::PostUnwindCommit { stage: self.stage },
            },
            Turn::Failed { .. } => Action::Stop,
            Turn::Finished => Action::Stop,
        }
    }

    fn turn_to(self, turn: Turn) -> (next: Pass)
        ensures
            next == self.turned(turn),
    {
        Pass { goal: self.goal, stages: self.stages, stage: self.stage, turn }
    }

    fn move_on(self, done: bool) -> (next: Pass)
        ensures
            next == self.moved_on(done),
    {
        match self.goal {
            Goal::Forward { .. } => if done && self.stages > 0 && self.stage < self.stages - 1 {
                Pass { goal: self.goal, stages: self.stages, stage: self.stage + 1, turn: Turn::Idle }
            } else {
                self.turn_to(Turn::Finished)
            },
            Goal::Unwind { .. } => if 0 < self.stage {
                Pass { goal: self.goal, stages: self.stages, stage: self.stage - 1, turn: Turn::Idle }
            } else {
                self.turn_to(Turn::Finished)
            },
        }
    }

    fn enter(self, checkpoint: Option<StageCheckpoint>) -> (next: Pass)
        ensures
            next == self.entered(checkpoint),
    {
        match self.goal {
            Goal::Forward { target } => self.turn_to(
                Turn::Polling { input: ExecInput { target, checkpoint } },
            ),
            Goal::Unwind { unwind_to, bad_block } => match checkpoint {
                Some(reached) => if reached.block_number > unwind_to {
                    self.turn_to(
                        Turn::Unwinding {
                            input: UnwindInput { checkpoint: reached, unwind_to, bad_block },
                        },
                    )
                } else {
                    self.move_on(true)
                },
                None => self.move_on(true),
            },
        }
    }

    /// Takes the step that follows `event`.
    pub fn advance(self, event: Event) -> (next: Pass)
        ensures
            next == self.after(event),
    {
        match (self.turn, event) {
            (Turn::Idle, Event::Loaded(checkpoint)) => self.enter(checkpoint),
            (Turn::Polling { input }, Event::Readied(Ok(_))) => self.turn_to(
                Turn::Executing { input },
            ),
            (Turn::Polling { .. }, Event::Readied(Err(_))) => self.turn_to(
                Turn::Failed { phase: Phase::Polling, failure: Failure::ReadinessTimeout },
            ),
            (Turn::Executing { .. }, Event::Executed(Ok(output))) => self.turn_to(
                Turn::Committed { checkpoint: output.checkpoint, done: output.done },
            ),
            (Turn::Executing { .. }, Event::Executed(Err(error))) => self.turn_to(
                Turn::Failed { phase: Phase::Executing, failure: Failure::Stage(error) },
            ),
            (Turn::Committed { done, .. }, Event::Persisted(Ok(_))) => self.turn_to(
                Turn::PostCommit { done },
            ),
            (Turn::Committed { .. }, Event::Persisted(Err(error))) => self.turn_to(
                Turn::Failed { phase: Phase::Committed, failure: Failure::Store(error) },
            ),
            (Turn::Unwinding { .. }, Event::Unwound(Ok(output))) => self.turn_to(
                Turn::UnwoundCommitted { checkpoint: output.checkpoint },
            ),
            (Turn::Unwinding { .. }, Event::Unwound(Err(error))) => self.turn_to(
                Turn::Failed { phase: Phase::Unwinding, failure: Failure::Stage(error) },
            ),
            (Turn::UnwoundCommitted { .. }, Event::Persisted(Ok(_))) => self.turn_to(
                Turn::PostCommit { done: true },
            ),
            (Turn::UnwoundCommitted { .. }, Event::Persisted(Err(error))) => self.turn_to(
                Turn::Failed { phase: Phase::UnwoundCommitted, failure: Failure::Store(error) },
            ),
            (Turn::PostCommit { done }, Event::Hooked(Ok(_))) => self.move_on(done),
            (Turn::PostCommit { .. }, Event::Hooked(Err(error))) => self.turn_to(
                Turn::Failed { phase: Phase::PostCommit, failure: Failure::Stage(error) },
            ),
            _ => self,
        }
    }
}

} // verus!

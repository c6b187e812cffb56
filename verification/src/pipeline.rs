//! The pipeline driver: an ordered list of stages, the data provider they
//! work against and the store that keeps their checkpoints.

use crate::checkpoint::{position_of, BlockNumber, StageCheckpoint, StageId};
use crate::pass::{Action, Event, Failure, Goal, Pass, Phase, Turn};
use crate::stage::{
    ExecOutput, Readiness, ReadinessTimeout, Stage, StageError, StageExt, UnwindOutput,
};
use crate::store::{lookup, CheckpointStore, StoreError};
use crate::trace::{
    honored, leads, lemma_run_begins, lemma_run_goes_on, lemma_step_keeps_pass,
    lemma_step_nears_end,
};
use vstd::prelude::*;

verus! {

/// Why a pass ended early, and at which stage.
#[derive(Debug, Clone, Copy, PartialEq, Eq, Structural)]
pub enum PipelineError {
    /// The stage returned an error in `phase`: from `execute`, from `unwind`
    /// or, in [`Phase::PostCommit`], from its post-commit hook.
    Stage { stage: StageId, phase: Phase, error: StageError },
    /// The store could not keep the checkpoint that the stage returned.
    Store { stage: StageId, error: StoreError },
    /// The stage did not become ready within the polls it was allowed.
    ReadinessTimeout { stage: StageId },
}

impl PipelineError {
    /// The stage at which the pass ended.
    pub open spec fn stage_of(self) -> StageId {
        match self {
            PipelineError::Stage { stage, .. } => stage,
            PipelineError::Store { stage, .. } => stage,
            PipelineError::ReadinessTimeout { stage } => stage,
        }
    }

    /// Whether the failing stage's new checkpoint had been made durable: so
    /// it is when the post-commit hook failed, and only then.
    pub open spec fn is_after_commit(self) -> bool {
        self matches PipelineError::Stage { phase: Phase::PostCommit, .. }
    }

    /// The error of a stage with id `stage` that failed in `phase` for
    /// `failure`.
    pub open spec fn of(stage: StageId, phase: Phase, failure: Failure) -> PipelineError {
        match failure {
            Failure::Stage(error) => PipelineError::Stage { stage, phase, error },
            Failure::Store(error) => PipelineError::Store { stage, error },
            Failure::ReadinessTimeout => PipelineError::ReadinessTimeout { stage },
        }
    }

    /// The stage at which the pass ended.
    pub fn stage(&self) -> (stage: StageId)
        ensures
            stage == self.stage_of(),
    {
        match self {
            PipelineError::Stage { stage, .. } => *stage,
            PipelineError::Store { stage, .. } => *stage,
            PipelineError::ReadinessTimeout { stage } => *stage,
        }
    }

    /// Whether the failing stage's new checkpoint had been made durable.
    pub fn after_commit(&self) -> (committed: bool)
        ensures
            committed == self.is_after_commit(),
    {
        match self {
            PipelineError::Stage { phase: Phase::PostCommit, .. } => true,
            _ => false,
        }
    }
}

/// The store holds for `id` what it held before.
pub open spec fn untouched(
    before: Map<StageId, StageCheckpoint>,
    after: Map<StageId, StageCheckpoint>,
    id: StageId,
) -> bool {
    lookup(after, id) == lookup(before, id)
}

/// The stage `id` has a checkpoint, and it is not past `target`.
pub open spec fn advanced(
    after: Map<StageId, StageCheckpoint>,
    target: Option<BlockNumber>,
    id: StageId,
) -> bool {
    &&& after.contains_key(id)
    &&& target matches Some(goal) ==> after[id].block_number <= goal
}

/// The stage `id` has a checkpoint, and it is at `target`.
pub open spec fn completed(
    after: Map<StageId, StageCheckpoint>,
    target: Option<BlockNumber>,
    id: StageId,
) -> bool {
    &&& after.contains_key(id)
    &&& target matches Some(goal) ==> after[id].block_number == goal
}

/// The stage `id` stands at `unwind_to` if it stood above it before, and
/// where it stood otherwise.
pub open spec fn unwound(
    before: Map<StageId, StageCheckpoint>,
    after: Map<StageId, StageCheckpoint>,
    unwind_to: BlockNumber,
    id: StageId,
) -> bool {
    if position_of(lookup(before, id)) > unwind_to {
        after.contains_key(id) && after[id].block_number == unwind_to
    } else {
        untouched(before, after, id)
    }
}

/// What a forward pass that came to stage `at` has done to the store. The
/// stages before `at` were done, so where a target is set they stand at it.
/// Stage `at` has a new checkpoint, not past the target, if the pass
/// `committed` one for it, and is as before otherwise. The later stages, and
/// what the store holds besides, are as before.
pub open spec fn forward_effect(
    ids: Seq<StageId>,
    before: Map<StageId, StageCheckpoint>,
    after: Map<StageId, StageCheckpoint>,
    target: Option<BlockNumber>,
    at: int,
    committed: bool,
) -> bool {
    &&& 0 <= at < ids.len()
    &&& forall|i: int| 0 <= i < at ==> completed(after, target, #[trigger] ids[i])
    &&& if committed {
        advanced(after, target, ids[at])
    } else {
        untouched(before, after, ids[at])
    }
    &&& forall|i: int| at < i < ids.len() ==> untouched(before, after, #[trigger] ids[i])
    &&& forall|id: StageId| !ids.contains(id) ==> untouched(before, after, id)
}

/// What an unwind pass that came down to stage `at` has done to the store.
/// The stages behind `at` are unwound. Stage `at` is unwound if the pass
/// `committed` its unwinding, and is as before otherwise. The stages before
/// it, and what the store holds besides, are as before.
pub open spec fn unwind_effect(
    ids: Seq<StageId>,
    before: Map<StageId, StageCheckpoint>,
    after: Map<StageId, StageCheckpoint>,
    unwind_to: BlockNumber,
    at: int,
    committed: bool,
) -> bool {
    &&& 0 <= at < ids.len()
    &&& forall|i: int| at < i < ids.len() ==> unwound(before, after, unwind_to, #[trigger] ids[i])
    &&& if committed {
        unwound(before, after, unwind_to, ids[at])
    } else {
        untouched(before, after, ids[at])
    }
    &&& forall|i: int| 0 <= i < at ==> untouched(before, after, #[trigger] ids[i])
    &&& forall|id: StageId| !ids.contains(id) ==> untouched(before, after, id)
}

/// Whether a pass that stands at `pass` has committed a checkpoint for the
/// stage in turn.
spec fn has_committed(pass: Pass) -> bool {
    ||| pass.turn is PostCommit
    ||| pass.turn is Finished
    ||| pass.turn matches Turn::Failed { phase: Phase::PostCommit, .. }
}

/// What holds of the store while a pass over the stages `ids` stands at
/// `pass`: `before` is what the store held when the pass began, `now` what
/// it holds.
#[verifier::opaque]
spec fn progress(
    ids: Seq<StageId>,
    before: Map<StageId, StageCheckpoint>,
    now: Map<StageId, StageCheckpoint>,
    pass: Pass,
) -> bool {
    let at = pass.stage as int;
    if ids.len() == 0 {
        now == before
    } else {
        match pass.goal {
            Goal::Forward { target } => {
                &&& forward_effect(ids, before, now, target, at, has_committed(pass))
                &&& target matches Some(goal) ==> match pass.turn {
                    Turn::Committed { checkpoint, done } => checkpoint.block_number <= goal && (done
                        <==> checkpoint.block_number == goal),
                    Turn::PostCommit { done } => done <==> now[ids[at]].block_number == goal,
                    Turn::Finished => at + 1 < ids.len() ==> now[ids[at]].block_number != goal,
                    _ => true,
                }
            },
            Goal::Unwind { unwind_to, .. } => {
                &&& unwind_effect(ids, before, now, unwind_to, at, has_committed(pass))
                &&& match pass.turn {
                    Turn::Unwinding { input } => lookup(before, ids[at]) == Some(input.checkpoint),
                    Turn::UnwoundCommitted { checkpoint } => checkpoint.block_number == unwind_to
                        && position_of(lookup(before, ids[at])) > unwind_to,
                    Turn::PostCommit { .. } => position_of(lookup(before, ids[at])) > unwind_to,
                    Turn::Failed { .. } => position_of(lookup(before, ids[at])) > unwind_to,
                    Turn::Finished => at == 0,
                    _ => true,
                }
            },
        }
    }
}

/// `after` are the stages `before`, but for the one at `stage`.
pub open spec fn only_changed<S>(before: Seq<S>, after: Seq<S>, stage: int) -> bool {
    &&& after.len() == before.len()
    &&& forall|other: int|
        0 <= other < before.len() && other != stage ==> #[trigger] after[other] == before[other]
}

/// What the outcome `event` of the awaited action of `pass` says of the
/// store, which held `now` before the action and holds `next` after it:
/// reading shows what the store holds, and only a checkpoint that was put
/// and kept changes it.
pub open spec fn performed(
    ids: Seq<StageId>,
    now: Map<StageId, StageCheckpoint>,
    next: Map<StageId, StageCheckpoint>,
    action: Action,
    event: Event,
) -> bool {
    &&& event.honors(action)
    &&& match action {
        Action::Load { stage } => event == Event::Loaded(lookup(now, ids[stage as int])) && next
            == now,
        Action::Persist { stage, checkpoint } => match event {
            Event::Persisted(Ok(_)) => next == now.insert(ids[stage as int], checkpoint),
            _ => next == now,
        },
        _ => next == now,
    }
}

/// How a pass that ended at `end` is reported: a failure as the error of
/// the stage that failed, by its id.
pub open spec fn outcome_of(ids: Seq<StageId>, end: Pass) -> Result<(), PipelineError> {
    match end.turn {
        Turn::Failed { phase, failure } => Err(
            PipelineError::of(ids[end.stage as int], phase, failure),
        ),
        _ => Ok(()),
    }
}

/// A pass over the stages `ids` that began at `start` and returned `result`
/// was a run of the pass machine: some events, each an outcome of the
/// action awaited when it came and every output answering its input, took
/// the pass from `start` to its end, and `result` reports that end.
pub open spec fn passed(ids: Seq<StageId>, start: Pass, result: Result<(), PipelineError>) -> bool {
    exists|events: Seq<Event>|
        {
            &&& honored(start, events)
            &&& (#[trigger] start.run(events)).is_over()
            &&& outcome_of(ids, start.run(events)) == result
        }
}

/// What a forward pass toward `target` that returned `result` has done to
/// the store.
///
/// Without stages it does nothing. Otherwise it came to some stage `at`,
/// after every stage before it was done. When it succeeded, it committed a
/// checkpoint for `at`; and if stages remain behind `at` and a target is
/// set, `at` has not reached it, which is why the pass ended there. When it
/// failed, `at` is the stage of the error, and its checkpoint is new only
/// if its post-commit hook is what failed.
pub open spec fn forward_outcome(
    ids: Seq<StageId>,
    before: Map<StageId, StageCheckpoint>,
    after: Map<StageId, StageCheckpoint>,
    target: Option<BlockNumber>,
    result: Result<(), PipelineError>,
) -> bool {
    if ids.len() == 0 {
        result is Ok && after == before
    } else {
        match result {
            Ok(_) => exists|at: int|
                {
                    &&& #[trigger] forward_effect(ids, before, after, target, at, true)
                    &&& (at + 1 < ids.len() && target is Some) ==> after[ids[at]].block_number
                        != target->0
                },
            Err(error) => exists|at: int|
                {
                    &&& #[trigger] forward_effect(
                        ids,
                        before,
                        after,
                        target,
                        at,
                        error.is_after_commit(),
                    )
                    &&& ids[at] == error.stage_of()
                    &&& error matches PipelineError::Stage { phase, .. } ==> phase
                        == Phase::Executing || phase == Phase::PostCommit
                },
        }
    }
}

/// What an unwind pass to `unwind_to` that returned `result` has done to the
/// store.
///
/// When it succeeded, every stage is unwound, and what the store holds
/// besides is as before. When it failed, it came down to some stage `at`,
/// the stage of the error, which stood above `unwind_to`; that stage is
/// unwound only if its post-commit hook is what failed.
pub open spec fn unwind_outcome(
    ids: Seq<StageId>,
    before: Map<StageId, StageCheckpoint>,
    after: Map<StageId, StageCheckpoint>,
    unwind_to: BlockNumber,
    result: Result<(), PipelineError>,
) -> bool {
    if ids.len() == 0 {
        result is Ok && after == before
    } else {
        match result {
            Ok(_) => forall|id: StageId|
                #![trigger lookup(after, id)]
                if ids.contains(id) && position_of(lookup(before, id)) > unwind_to {
                    lookup(after, id) matches Some(reached) && reached.block_number == unwind_to
                } else {
                    lookup(after, id) == lookup(before, id)
                },
            Err(error) => exists|at: int|
                {
                    &&& #[trigger] unwind_effect(
                        ids,
                        before,
                        after,
                        unwind_to,
                        at,
                        error.is_after_commit(),
                    )
                    &&& ids[at] == error.stage_of()
                    &&& position_of(lookup(before, ids[at])) > unwind_to
                    &&& !(error is ReadinessTimeout)
                    &&& error matches PipelineError::Stage { phase, .. } ==> phase
                        == Phase::Unwinding || phase == Phase::PostCommit
                },
        }
    }
}

/// One step of a pass keeps [`progress`].
proof fn lemma_progress_step(
    ids: Seq<StageId>,
    before: Map<StageId, StageCheckpoint>,
    now: Map<StageId, StageCheckpoint>,
    next: Map<StageId, StageCheckpoint>,
    pass: Pass,
    event: Event,
)
    requires
        ids.no_duplicates(),
        pass.wf(),
        pass.stages == ids.len(),
        !pass.is_over(),
        progress(ids, before, now, pass),
        performed(ids, now, next, pass.awaits(), event),
    ensures
        progress(ids, before, next, pass.after(event)),
{
    reveal(progress);
    let at = pass.stage as int;
    assert(ids.contains(ids[at]));
    assert forall|id: StageId| !ids.contains(id) implies untouched(before, next, id) by {
        assert(untouched(before, now, id));
    }
    assert forall|i: int| 0 <= i < ids.len() && i != at implies lookup(next, #[trigger] ids[i])
        == lookup(now, ids[i]) by {
        assert(ids[i] != ids[at]);
    }
}

/// A pipeline: stages in the order in which they run, each under its own id.
///
/// A stage is asked for its id once, when it is added; from then on the
/// pipeline keeps its checkpoint under that id, whatever the stage does.
pub struct Pipeline<Provider, S, C> {
    provider: Provider,
    stages: Vec<S>,
    ids: Vec<StageId>,
    store: C,
    retries: u64,
    /// The stages as they were when they gave their ids.
    added: Ghost<Seq<S>>,
}

/// Whether `id` is among `ids`.
pub fn has_id(ids: &Vec<StageId>, id: StageId) -> (found: bool)
    ensures
        found == ids@.contains(id),
{
    let mut i: usize = 0;
    while i < ids.len()
        invariant
            i <= ids.len(),
            forall|j: int| 0 <= j < i ==> ids@[j] != id,
        decreases ids.len() - i,
    {
        if ids[i] == id {
            return true;
        }
        i = i + 1;
    }
    false
}

impl<Provider, S, C> Pipeline<Provider, S, C> {
    /// The stages, in the order in which they run.
    pub closed spec fn stages(self) -> Seq<S> {
        self.stages@
    }

    /// The stages as they were when they were added, in the same order.
    pub closed spec fn as_added(self) -> Seq<S> {
        self.added@
    }

    /// The ids of the stages, in the order in which the stages run.
    pub closed spec fn ids(self) -> Seq<StageId> {
        self.ids@
    }

    /// The data provider that the stages work against.
    pub closed spec fn provider(self) -> Provider {
        self.provider
    }

    /// How often a stage that is not ready is polled again.
    pub closed spec fn retries(self) -> u64 {
        self.retries
    }
}

impl<Provider, S: Stage<Provider>, C: CheckpointStore> Pipeline<Provider, S, C> {
    /// Every stage is listed under the id that it gave when it was added,
    /// and no id is listed twice.
    pub open spec fn wf(self) -> bool {
        &&& self.ids().len() == self.stages().len()
        &&& self.as_added().len() == self.stages().len()
        &&& self.ids().no_duplicates()
        &&& forall|i: int|
            0 <= i < self.ids().len() ==> call_ensures(
                S::id,
                (&self.as_added()[i],),
                #[trigger] self.ids()[i],
            )
    }

    /// The checkpoints that the store holds.
    pub closed spec fn checkpoints(self) -> Map<StageId, StageCheckpoint> {
        self.store.checkpoints()
    }

    /// A pipeline without stages, over `provider` and `store`. Before each
    /// execution a stage is polled for readiness, and up to `retries` more
    /// times while it is pending.
    pub fn new(provider: Provider, store: C, retries: u64) -> (pipeline: Self)
        ensures
            pipeline.wf(),
            pipeline.stages() == Seq::<S>::empty(),
            pipeline.ids() == Seq::<StageId>::empty(),
            pipeline.provider() == provider,
            pipeline.checkpoints() == store.checkpoints(),
            pipeline.retries() == retries,
    {
        Pipeline {
            provider,
            stages: Vec::new(),
            ids: Vec::new(),
            store,
            retries,
            added: Ghost(Seq::empty()),
        }
    }

    /// Adds `stage` behind the stages that the pipeline has, under the id
    /// that it gives. A stage that gives an id which a stage of the pipeline
    /// has already is handed back, and the pipeline stays as it is; so a
    /// pipeline without stages takes every stage.
    pub fn push(&mut self, stage: S) -> (added: Result<StageId, S>)
        requires
            old(self).wf(),
        ensures
            final(self).wf(),
            final(self).provider() == old(self).provider(),
            final(self).checkpoints() == old(self).checkpoints(),
            final(self).retries() == old(self).retries(),
            old(self).ids().len() == 0 ==> added is Ok,
            match added {
                Ok(id) => {
                    &&& call_ensures(S::id, (&stage,), id)
                    &&& !old(self).ids().contains(id)
                    &&& final(self).ids() == old(self).ids().push(id)
                    &&& final(self).stages() == old(self).stages().push(stage)
                    &&& final(self).as_added() == old(self).as_added().push(stage)
                },
                Err(back) => {
                    &&& back == stage
                    &&& exists|id: StageId|
                        #[trigger] call_ensures(S::id, (&stage,), id) && old(self).ids().contains(
                            id,
                        )
                    &&& final(self).ids() == old(self).ids()
                    &&& final(self).stages() == old(self).stages()
                    &&& final(self).as_added() == old(self).as_added()
                },
            },
    {
        let id = stage.id();
        if has_id(&self.ids, id) {
            return Err(stage);
        }
        let ghost given = stage;
        self.ids.push(id);
        self.stages.push(stage);
        self.added = Ghost(self.added@.push(given));
        Ok(id)
    }

    /// Does what `action` asks for and says what came of it; nothing, if
    /// the action is to stop.
    ///
    /// An action on a stage is one call of that stage's operation, with the
    /// provider of the pipeline and the input of the action: the event holds
    /// what the call returned, the stage is afterwards what the call made of
    /// it, and no other stage has changed. Reading and putting a checkpoint
    /// go to the store, under the id of the stage, and change no stage.
    pub fn perform(&mut self, action: Action) -> (event: Option<Event>)
        requires
            old(self).wf(),
            action.fits(old(self).ids().len()),
        ensures
            final(self).wf(),
            final(self).ids() == old(self).ids(),
            final(self).as_added() == old(self).as_added(),
            final(self).provider() == old(self).provider(),
            final(self).retries() == old(self).retries(),
            match event {
                Some(event) => performed(
                    old(self).ids(),
                    old(self).checkpoints(),
                    final(self).checkpoints(),
                    action,
                    event,
                ),
                None => action is Stop && final(self).checkpoints() == old(self).checkpoints(),
            },
            match action {
                Action::AwaitReady { stage, input } => {
                    &&& only_changed(old(self).stages(), final(self).stages(), stage as int)
                    &&& event matches Some(Event::Readied(readied)) && exists|
                        states: Seq<&S>,
                        answers: Seq<Readiness>,
                    |
                        #![trigger states.len(), answers.len()]
                        {
                            &&& readied matches Err(timeout) ==> timeout.retries == old(
                                self,
                            ).retries()
                            &&& 1 <= answers.len() <= old(self).retries() + 1
                            &&& states.len() == answers.len() + 1
                            &&& states[0] == &old(self).stages()[stage as int]
                            &&& states.last() == &final(self).stages()[stage as int]
                            &&& forall|i: int|
                                #![trigger answers[i]]
                                0 <= i < answers.len() ==> {
                                    &&& i < answers.len() - 1 ==> answers[i] == Readiness::Pending
                                    &&& exists|poll: &mut S|
                                        &*poll == states[i] && &*final(poll) == states[i + 1]
                                            && #[trigger] call_ensures(
                                            S::poll_execute_ready,
                                            (poll, input),
                                            answers[i],
                                        )
                                }
                            &&& match readied {
                                Ok(_) => answers.last() == Readiness::Ready,
                                Err(_) => answers.last() == Readiness::Pending && answers.len()
                                    == old(self).retries() + 1,
                            }
                        }
                },
                Action::Execute { stage, input } => {
                    &&& only_changed(old(self).stages(), final(self).stages(), stage as int)
                    &&& exists|called: &mut S, executed: Result<ExecOutput, StageError>|
                        {
                            &&& event == Some(Event::Executed(executed))
                            &&& &*called == &old(self).stages()[stage as int]
                            &&& &*final(called) == &final(self).stages()[stage as int]
                            &&& #[trigger] call_ensures(
                                S::execute,
                                (called, &old(self).provider(), input),
                                executed,
                            )
                        }
                },
                Action::Unwind { stage, input } => {
                    &&& only_changed(old(self).stages(), final(self).stages(), stage as int)
                    &&& exists|called: &mut S, unwound: Result<UnwindOutput, StageError>|
                        {
                            &&& event == Some(Event::Unwound(unwound))
                            &&& &*called == &old(self).stages()[stage as int]
                            &&& &*final(called) == &final(self).stages()[stage as int]
                            &&& #[trigger] call_ensures(
                                S::unwind,
                                (called, &old(self).provider(), input),
                                unwound,
                            )
                        }
                },
                Action::PostExecuteCommit { stage } => {
                    &&& only_changed(old(self).stages(), final(self).stages(), stage as int)
                    &&& exists|called: &mut S, hooked: Result<(), StageError>|
                        {
                            &&& event == Some(Event::Hooked(hooked))
                            &&& &*called == &old(self).stages()[stage as int]
                            &&& &*final(called) == &final(self).stages()[stage as int]
                            &&& #[trigger] call_ensures(S::post_execute_commit, (called,), hooked)
                        }
                },
                Action::PostUnwindCommit { stage } => {
                    &&& only_changed(old(self).stages(), final(self).stages(), stage as int)
                    &&& exists|called: &mut S, hooked: Result<(), StageError>|
                        {
                            &&& event == Some(Event::Hooked(hooked))
                            &&& &*called == &old(self).stages()[stage as int]
                            &&& &*final(called) == &final(self).stages()[stage as int]
                            &&& #[trigger] call_ensures(S::post_unwind_commit, (called,), hooked)
                        }
                },
                _ => final(self).stages() == old(self).stages(),
            },
    {
        match action {
            Action::Load { stage } => Some(Event::Loaded(self.store.get(self.ids[stage]))),
            Action::AwaitReady { stage, input } => {
                let ghost before: &S = &self.stages@[stage as int];
                let called: &mut S = &mut self.stages[stage];
                let readied = called.execute_ready(input, self.retries);
                let ghost after: &S = &self.stages@[stage as int];
                assert(exists|states: Seq<&S>, answers: Seq<Readiness>|
                    #![trigger states.len(), answers.len()]
                    {
                        &&& 1 <= answers.len() <= self.retries + 1
                        &&& states.len() == answers.len() + 1
                        &&& states[0] == before
                        &&& states.last() == after
                        &&& forall|i: int|
                            #![trigger answers[i]]
                            0 <= i < answers.len() ==> {
                                &&& i < answers.len() - 1 ==> answers[i] == Readiness::Pending
                                &&& exists|poll: &mut S|
                                    &*poll == states[i] && &*final(poll) == states[i + 1]
                                        && #[trigger] call_ensures(
                                        S::poll_execute_ready,
                                        (poll, input),
                                        answers[i],
                                    )
                            }
                        &&& match readied {
                            Ok(_) => answers.last() == Readiness::Ready,
                            Err(_) => answers.last() == Readiness::Pending && answers.len()
                                == self.retries + 1,
                        }
                    });

                Some(Event::Readied(readied))
            },
            Action::Execute { stage, input } => {
                let ghost before: &S = &self.stages@[stage as int];
                let called: &mut S = &mut self.stages[stage];
                let executed = called.execute(&self.provider, input);
                assert(exists|called: &mut S|
                    &*called == before && &*final(called) == &self.stages@[stage as int]
                        && #[trigger] call_ensures(
                        S::execute,
                        (called, &self.provider, input),
                        executed,
                    ));
                Some(Event::Executed(executed))
            },
            Action::Unwind { stage, input } => {
                let ghost before: &S = &self.stages@[stage as int];
                let called: &mut S = &mut self.stages[stage];
                let unwound = called.unwind(&self.provider, input);
                assert(exists|called: &mut S|
                    &*called == before && &*final(called) == &self.stages@[stage as int]
                        && #[trigger] call_ensures(
                        S::unwind,
                        (called, &self.provider, input),
                        unwound,
                    ));
                Some(Event::Unwound(unwound))
            },
            Action::Persist { stage, checkpoint } => Some(
                Event::Persisted(self.store.put(self.ids[stage], checkpoint)),
            ),
            Action::PostExecuteCommit { stage } => {
                let called: &mut S = &mut self.stages[stage];
                let hooked = called.post_execute_commit();
                Some(Event::Hooked(hooked))
            },
            Action::PostUnwindCommit { stage } => {
                let called: &mut S = &mut self.stages[stage];
                let hooked = called.post_unwind_commit();
                Some(Event::Hooked(hooked))
            },
            Action::Stop => None,
        }
    }

    /// Takes `start` to its end: does what the pass waits for and lets it
    /// decide on what came of that, until it is over.
    fn drive(&mut self, start: Pass) -> (end: Pass)
        requires
            old(self).wf(),
            start.wf(),
            start.stages == old(self).ids().len(),
            progress(old(self).ids(), old(self).checkpoints(), old(self).checkpoints(), start),
        ensures
            final(self).wf(),
            final(self).ids() == old(self).ids(),
            final(self).as_added() == old(self).as_added(),
            final(self).provider() == old(self).provider(),
            final(self).retries() == old(self).retries(),
            end.wf(),
            end.is_over(),
            end.goal == start.goal,
            end.stages == start.stages,
            progress(old(self).ids(), old(self).checkpoints(), final(self).checkpoints(), end),
            exists|events: Seq<Event>| #[trigger] leads(start, events, end),
    {
        let ghost before = self.store.checkpoints();
        let ghost mut events = Seq::<Event>::empty();
        let mut pass = start;
        proof {
            lemma_run_begins(start);
        }
        loop
            invariant
                leads(start, events, pass),
                self.wf(),
                self.ids@ == old(self).ids@,
                self.added@ == old(self).added@,
                self.provider == old(self).provider,
                self.retries == old(self).retries,
                pass.wf(),
                pass.goal == start.goal,
                pass.stages == self.ids@.len(),
                pass.stages == start.stages,
                before == old(self).store.checkpoints(),
                progress(self.ids@, before, self.store.checkpoints(), pass),
            decreases pass.steps_left(),
        {
            let ghost now = self.store.checkpoints();
            match self.perform(pass.action()) {
                None => {
                    return pass;
                },
                Some(event) => {
                    proof {
                        lemma_progress_step(
                            self.ids@,
                            before,
                            now,
                            self.store.checkpoints(),
                            pass,
                            event,
                        );
                        lemma_step_keeps_pass(pass, event);
                        lemma_step_nears_end(pass, event);
                        lemma_run_goes_on(start, events, event);
                        events = events.push(event);
                    }
                    pass = pass.advance(event);
                },
            }
        }
    }

    /// Reports how a pass ended.
    fn outcome(&self, end: Pass) -> (result: Result<(), PipelineError>)
        requires
            end.turn is Failed ==> end.stage < self.ids().len(),
        ensures
            result == outcome_of(self.ids(), end),
    {
        match end.turn {
            Turn::Failed { phase, failure } => {
                let stage = self.ids[end.stage];
                Err(
                    match failure {
                        Failure::Stage(error) => PipelineError::Stage { stage, phase, error },
                        Failure::Store(error) => PipelineError::Store { stage, error },
                        Failure::ReadinessTimeout => PipelineError::ReadinessTimeout { stage },
                    },
                )
            },
            _ => Ok(()),
        }
    }

    /// Runs a forward pass: each stage in turn, first to last, is polled
    /// until it is ready, executed from its last checkpoint toward `target`,
    /// has its new checkpoint put into the store and then its post-commit
    /// hook called. The pass ends with the first stage that is not done,
    /// which a later pass takes up again, and with the first failure; what
    /// was committed until then stays.
    pub fn run_forward(&mut self, target: Option<BlockNumber>) -> (result: Result<
        (),
        PipelineError,
    >)
        requires
            old(self).wf(),
        ensures
            final(self).wf(),
            final(self).ids() == old(self).ids(),
            final(self).as_added() == old(self).as_added(),
            final(self).provider() == old(self).provider(),
            final(self).retries() == old(self).retries(),
            forward_outcome(
                old(self).ids(),
                old(self).checkpoints(),
                final(self).checkpoints(),
                target,
                result,
            ),
            passed(
                old(self).ids(),
                Pass::forward_start(old(self).ids().len() as usize, target),
                result,
            ),
    {
        let ghost before = self.store.checkpoints();
        let start = Pass::forward(self.ids.len(), target);
        proof {
            reveal(progress);
        }
        let end = self.drive(start);
        let result = self.outcome(end);
        proof {
            reveal(progress);
            let events = choose|events: Seq<Event>| #[trigger] leads(start, events, end);
            assert(start.run(events).is_over());
            let ids = self.ids@;
            let after = self.store.checkpoints();
            if ids.len() > 0 {
                let at = end.stage as int;
                match result {
                    Ok(_) => {
                        assert(forward_effect(ids, before, after, target, at, true));
                    },
                    Err(error) => {
                        assert(forward_effect(
                            ids,
                            before,
                            after,
                            target,
                            at,
                            error.is_after_commit(),
                        ));
                    },
                }
            }
        }
        result
    }

    /// Runs an unwind pass: each stage in turn, last to first, whose
    /// checkpoint lies above `unwind_to` is unwound to it, has the
    /// checkpoint it returns put into the store and then its post-commit hook
    /// called. `bad_block` is handed to the stages as the position that
    /// caused the unwind. The pass ends with the first failure; the stages it
    /// had not come to stay where they were.
    pub fn run_unwind(&mut self, unwind_to: BlockNumber, bad_block: Option<BlockNumber>) -> (result:
        Result<(), PipelineError>)
        requires
            old(self).wf(),
        ensures
            final(self).wf(),
            final(self).ids() == old(self).ids(),
            final(self).as_added() == old(self).as_added(),
            final(self).provider() == old(self).provider(),
            final(self).retries() == old(self).retries(),
            unwind_outcome(
                old(self).ids(),
                old(self).checkpoints(),
                final(self).checkpoints(),
                unwind_to,
                result,
            ),
            passed(
                old(self).ids(),
                Pass::unwind_start(old(self).ids().len() as usize, unwind_to, bad_block),
                result,
            ),
    {
        let ghost before = self.store.checkpoints();
        let start = Pass::unwind(self.ids.len(), unwind_to, bad_block);
        proof {
            reveal(progress);
        }
        let end = self.drive(start);
        let result = self.outcome(end);
        proof {
            reveal(progress);
            let events = choose|events: Seq<Event>| #[trigger] leads(start, events, end);
            assert(start.run(events).is_over());
            let ids = self.ids@;
            let after = self.store.checkpoints();
            if ids.len() > 0 {
                let at = end.stage as int;
                match result {
                    Ok(_) => {
                        assert(unwind_effect(ids, before, after, unwind_to, 0, true));
                        assert forall|id: StageId| ids.contains(id) implies unwound(
                            before,
                            after,
                            unwind_to,
                            id,
                        ) by {
                            let i = choose|i: int| 0 <= i < ids.len() && ids[i] == id;
                            assert(unwound(before, after, unwind_to, ids[i]));
                        }
                    },
                    Err(error) => {
                        assert(unwind_effect(
                            ids,
                            before,
                            after,
                            unwind_to,
                            at,
                            error.is_after_commit(),
                        ));
                    },
                }
            }
        }
        result
    }

    /// The number of stages.
    pub fn len(&self) -> (len: usize)
        ensures
            len == self.ids().len(),
    {
        self.ids.len()
    }

    /// The checkpoint that the store holds for `id`.
    pub fn checkpoint(&self, id: StageId) -> (found: Option<StageCheckpoint>)
        ensures
            found == lookup(self.checkpoints(), id),
    {
        self.store.get(id)
    }

    /// Whether every stage stands at or above `target`. A stage without a
    /// checkpoint stands at the beginning.
    pub fn reached(&self, target: BlockNumber) -> (all: bool)
        ensures
            all == forall|i: int|
                0 <= i < self.ids().len() ==> position_of(
                    lookup(self.checkpoints(), #[trigger] self.ids()[i]),
                ) >= target,
    {
        let mut i: usize = 0;
        while i < self.ids.len()
            invariant
                i <= self.ids.len(),
                forall|j: int|
                    0 <= j < i ==> position_of(
                        lookup(self.store.checkpoints(), #[trigger] self.ids@[j]),
                    ) >= target,
            decreases self.ids.len() - i,
        {
            let position = match self.store.get(self.ids[i]) {
                Some(checkpoint) => checkpoint.block_number,
                None => 0,
            };
            if position < target {
                return false;
            }
            i = i + 1;
        }
        true
    }
}

} // verus!

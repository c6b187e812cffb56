//! Runs of a pass, and what holds of every run.
//!
//! A pass is followed through a sequence of events. Whatever the events
//! are, a forward pass comes to a stage only after every stage before it
//! has reported that it is done. An unwind pass over stages that keep their
//! contract comes to a stage only after every stage behind it stands at or
//! below the goal.

use crate::checkpoint::{position_of, BlockNumber, StageCheckpoint, StageId};
use crate::pass::{Action, Event, Goal, Pass, Turn};
use crate::stage::{ExecInput, ExecOutput};
use crate::store::lookup;
use vstd::prelude::*;

verus! {

impl Pass {
    /// The pass after the events of `events`, one after the other.
    pub open spec fn run(self, events: Seq<Event>) -> Pass
        decreases events.len(),
    {
        if events.len() == 0 {
            self
        } else {
            self.run(events.drop_last()).after(events.last())
        }
    }
}

/// Every event of `events` is an outcome of the action the pass waited for
/// when it came, and every output of a stage answers its input.
#[verifier::opaque]
pub open spec fn honored(start: Pass, events: Seq<Event>) -> bool {
    forall|k: int|
        0 <= k < events.len() ==> (#[trigger] events[k]).honors(
            start.run(events.take(k)).awaits(),
        )
}

/// `events` take the pass from `start` to `end`, and they are honored.
pub open spec fn leads(start: Pass, events: Seq<Event>, end: Pass) -> bool {
    start.run(events) == end && honored(start, events)
}

/// Before any event, a pass is where it started.
pub proof fn lemma_run_begins(start: Pass)
    ensures
        leads(start, Seq::<Event>::empty(), start),
{
    reveal(honored);
}

/// A run goes on by one step for an event that honors what the pass waits
/// for at its end.
pub proof fn lemma_run_goes_on(start: Pass, events: Seq<Event>, event: Event)
    requires
        honored(start, events),
        event.honors(start.run(events).awaits()),
    ensures
        leads(start, events.push(event), start.run(events).after(event)),
{
    reveal(honored);
    let longer = events.push(event);
    assert(longer.drop_last() =~= events);
    assert forall|k: int| 0 <= k < longer.len() implies (#[trigger] longer[k]).honors(
        start.run(longer.take(k)).awaits(),
    ) by {
        if k < events.len() {
            assert(longer.take(k) =~= events.take(k));
        } else {
            assert(longer.take(k) =~= events);
        }
    }
}

/// A step keeps a pass well formed, and changes neither its goal nor the
/// number of its stages.
pub proof fn lemma_step_keeps_pass(pass: Pass, event: Event)
    requires
        pass.wf(),
    ensures
        pass.after(event).wf(),
        pass.after(event).goal == pass.goal,
        pass.after(event).stages == pass.stages,
{
}

/// A pass that is over stays as it is, whatever comes.
pub proof fn lemma_over_is_final(pass: Pass, event: Event)
    requires
        pass.is_over(),
    ensures
        pass.after(event) == pass,
{
}

/// Every outcome of the awaited action takes a pass that is not over one
/// step nearer to its end, and a pass takes at most five steps per stage.
pub proof fn lemma_step_nears_end(pass: Pass, event: Event)
    requires
        pass.wf(),
        !pass.is_over(),
        event.answers(pass.awaits()),
    ensures
        pass.after(event).steps_left() < pass.steps_left(),
        pass.steps_left() <= 5 * pass.stages,
{
}

/// A stage is executed only once it is ready: a pass comes to wait for
/// `execute` through no event but the stage becoming ready.
pub proof fn lemma_execute_follows_ready(pass: Pass, event: Event)
    requires
        !(pass.awaits() is Execute),
        pass.after(event).awaits() is Execute,
    ensures
        pass.awaits() is AwaitReady,
        event matches Event::Readied(Ok(_)),
        pass.after(event).awaits() == (Action::Execute {
            stage: pass.stage,
            input: pass.awaits()->AwaitReady_input,
        }),
{
}

/// A post-commit hook runs only after the checkpoint is durable: a pass
/// comes to wait for a hook through no event but the store keeping the
/// checkpoint of the stage in turn.
pub proof fn lemma_hook_follows_commit(pass: Pass, event: Event)
    requires
        !(pass.awaits() is PostExecuteCommit || pass.awaits() is PostUnwindCommit),
        pass.after(event).awaits() is PostExecuteCommit || pass.after(event).awaits()
            is PostUnwindCommit,
    ensures
        pass.awaits() is Persist,
        event matches Event::Persisted(Ok(_)),
        pass.after(event).stage == pass.stage,
{
}

/// A forward pass hands a stage the checkpoint that the store holds for
/// it. So a stage whose execution stopped early is taken up where it
/// stopped: once the checkpoint of that execution has been put into the
/// store, the next execution that a pass asks of the stage starts from it.
pub proof fn lemma_execution_resumes_from_checkpoint(
    pass: Pass,
    target: Option<BlockNumber>,
    store: Map<StageId, StageCheckpoint>,
    id: StageId,
    partial: ExecOutput,
)
    requires
        pass.goal == (Goal::Forward { target }),
        pass.turn is Idle,
    ensures
        pass.after(Event::Loaded(lookup(store.insert(id, partial.checkpoint), id))).after(
            Event::Readied(Ok(())),
        ).awaits() == (Action::Execute {
            stage: pass.stage,
            input: ExecInput { target, checkpoint: Some(partial.checkpoint) },
        }),
{
}

proof fn lemma_run_keeps_pass(start: Pass, events: Seq<Event>)
    requires
        start.wf(),
    ensures
        start.run(events).wf(),
        start.run(events).goal == start.goal,
        start.run(events).stages == start.stages,
    decreases events.len(),
{
    if events.len() > 0 {
        lemma_run_keeps_pass(start, events.drop_last());
        lemma_step_keeps_pass(start.run(events.drop_last()), events.last());
    }
}

/// Event `k` of `events` is stage `stage` returning from `execute` with
/// `done` set.
pub open spec fn done_at(start: Pass, events: Seq<Event>, k: int, stage: int) -> bool {
    &&& 0 <= k < events.len()
    &&& start.run(events.take(k)).stage == stage
    &&& start.run(events.take(k)).turn is Executing
    &&& events[k] matches Event::Executed(Ok(output)) && output.done
}

/// Somewhere in `events`, stage `stage` has reported that it is done.
pub open spec fn reported_done(start: Pass, events: Seq<Event>, stage: int) -> bool {
    exists|k: int| #[trigger] done_at(start, events, k, stage)
}

proof fn lemma_done_stays(start: Pass, events: Seq<Event>, stage: int)
    requires
        events.len() > 0,
        reported_done(start, events.drop_last(), stage),
    ensures
        reported_done(start, events, stage),
{
    let k = choose|k: int| #[trigger] done_at(start, events.drop_last(), k, stage);
    assert(events.drop_last().take(k) =~= events.take(k));
    assert(done_at(start, events, k, stage));
}

proof fn lemma_forward_trace(start: Pass, events: Seq<Event>)
    requires
        start.wf(),
        start.goal is Forward,
        start.stage == 0,
        start.turn is Idle || start.turn is Finished,
    ensures
        forall|i: int| 0 <= i < start.run(events).stage ==> reported_done(start, events, i),
        (match start.run(events).turn {
            Turn::Committed { done, .. } => done,
            Turn::PostCommit { done } => done,
            _ => false,
        }) ==> reported_done(start, events, start.run(events).stage as int),
    decreases events.len(),
{
    if events.len() > 0 {
        let before = start.run(events.drop_last());
        let now = start.run(events);
        let k = events.len() - 1;
        lemma_forward_trace(start, events.drop_last());
        lemma_run_keeps_pass(start, events.drop_last());
        assert(events.take(k) =~= events.drop_last());
        assert(now == before.after(events.last()));
        assert forall|i: int| 0 <= i < now.stage implies reported_done(start, events, i) by {
            if i < before.stage {
                lemma_done_stays(start, events, i);
            } else {
                assert(before.turn matches Turn::PostCommit { done } && done);
                lemma_done_stays(start, events, i);
            }
        }
        match now.turn {
            Turn::Committed { done, .. } => {
                if done {
                    if before.turn is Executing {
                        assert(done_at(start, events, k, now.stage as int));
                    } else {
                        lemma_done_stays(start, events, now.stage as int);
                    }
                }
            },
            Turn::PostCommit { done } => {
                if done {
                    lemma_done_stays(start, events, now.stage as int);
                }
            },
            _ => {},
        }
    }
}

/// A forward pass is at a stage only when every stage before it has
/// returned from `execute` with `done` set, in this pass: no stage is
/// polled, executed or committed before that.
pub proof fn lemma_forward_order(
    stages: usize,
    target: Option<BlockNumber>,
    events: Seq<Event>,
    earlier: int,
)
    requires
        0 <= earlier < Pass::forward_start(stages, target).run(events).stage,
    ensures
        reported_done(Pass::forward_start(stages, target), events, earlier),
{
    lemma_forward_trace(Pass::forward_start(stages, target), events);
}

/// Event `k` of `events` shows stage `stage` at or below `unwind_to`: its
/// checkpoint was read and lies there, or the checkpoint of its unwind, which
/// lies there, was made durable.
pub open spec fn settled_at(
    start: Pass,
    events: Seq<Event>,
    k: int,
    stage: int,
    unwind_to: BlockNumber,
) -> bool {
    &&& 0 <= k < events.len()
    &&& start.run(events.take(k)).stage == stage
    &&& match (start.run(events.take(k)).turn, events[k]) {
        (Turn::Idle, Event::Loaded(checkpoint)) => position_of(checkpoint) <= unwind_to,
        (Turn::UnwoundCommitted { checkpoint }, Event::Persisted(Ok(_))) => checkpoint.block_number
            == unwind_to,
        _ => false,
    }
}

/// Somewhere in `events`, stage `stage` has been seen or brought to stand at
/// or below `unwind_to`.
pub open spec fn reached_goal(
    start: Pass,
    events: Seq<Event>,
    stage: int,
    unwind_to: BlockNumber,
) -> bool {
    exists|k: int| #[trigger] settled_at(start, events, k, stage, unwind_to)
}

proof fn lemma_honored_before(start: Pass, events: Seq<Event>)
    requires
        events.len() > 0,
        honored(start, events),
    ensures
        honored(start, events.drop_last()),
{
    reveal(honored);
    let shorter = events.drop_last();
    assert forall|k: int| 0 <= k < shorter.len() implies (#[trigger] shorter[k]).honors(
        start.run(shorter.take(k)).awaits(),
    ) by {
        assert(shorter.take(k) =~= events.take(k));
        assert(shorter[k] == events[k]);
    }
}

proof fn lemma_settled_stays(start: Pass, events: Seq<Event>, stage: int, unwind_to: BlockNumber)
    requires
        events.len() > 0,
        reached_goal(start, events.drop_last(), stage, unwind_to),
    ensures
        reached_goal(start, events, stage, unwind_to),
{
    let k = choose|k: int| #[trigger] settled_at(start, events.drop_last(), k, stage, unwind_to);
    assert(events.drop_last().take(k) =~= events.take(k));
    assert(settled_at(start, events, k, stage, unwind_to));
}

proof fn lemma_unwind_trace(start: Pass, events: Seq<Event>, unwind_to: BlockNumber)
    requires
        start.wf(),
        start.goal matches Goal::Unwind { unwind_to: goal, .. } && goal == unwind_to,
        (start.turn is Finished && start.stages == 0) || (start.turn is Idle && start.stage + 1
            == start.stages),
        honored(start, events),
    ensures
        forall|j: int|
            start.run(events).stage < j < start.stages ==> reached_goal(
                start,
                events,
                j,
                unwind_to,
            ),
        start.run(events).turn matches Turn::UnwoundCommitted { checkpoint }
            ==> checkpoint.block_number == unwind_to,
        start.run(events).turn is PostCommit || (start.run(events).turn is Finished
            && start.stages > 0) ==> reached_goal(
            start,
            events,
            start.run(events).stage as int,
            unwind_to,
        ),
    decreases events.len(),
{
    if events.len() > 0 {
        let before = start.run(events.drop_last());
        let now = start.run(events);
        let k = events.len() - 1;
        lemma_honored_before(start, events);
        lemma_unwind_trace(start, events.drop_last(), unwind_to);
        lemma_run_keeps_pass(start, events.drop_last());
        assert(events.take(k) =~= events.drop_last());
        assert(now == before.after(events.last()));
        assert(events[k].honors(before.awaits())) by {
            reveal(honored);
        }
        // What this step settles, if it settles the stage it is at.
        let settles = settled_at(start, events, k, before.stage as int, unwind_to);
        assert forall|j: int| now.stage < j < start.stages implies reached_goal(
            start,
            events,
            j,
            unwind_to,
        ) by {
            if before.stage < j {
                lemma_settled_stays(start, events, j, unwind_to);
            } else {
                assert(j == before.stage);
                if before.turn is PostCommit {
                    lemma_settled_stays(start, events, j, unwind_to);
                } else {
                    assert(settles);
                }
            }
        }
        if now.turn is PostCommit || (now.turn is Finished && start.stages > 0) {
            if before.turn is PostCommit || before.turn is Finished {
                lemma_settled_stays(start, events, now.stage as int, unwind_to);
            } else {
                assert(settles);
            }
        }
    }
}

/// An unwind pass over stages that keep their contract is at a stage only
/// when every stage behind it stands at or below the goal: its checkpoint
/// was found there, or its unwind went there and was made durable. No stage
/// is unwound before that.
pub proof fn lemma_unwind_order(
    stages: usize,
    unwind_to: BlockNumber,
    bad_block: Option<BlockNumber>,
    events: Seq<Event>,
    later: int,
)
    requires
        honored(Pass::unwind_start(stages, unwind_to, bad_block), events),
        Pass::unwind_start(stages, unwind_to, bad_block).run(events).stage < later < stages,
    ensures
        reached_goal(Pass::unwind_start(stages, unwind_to, bad_block), events, later, unwind_to),
{
    lemma_unwind_trace(Pass::unwind_start(stages, unwind_to, bad_block), events, unwind_to);
}

} // verus!

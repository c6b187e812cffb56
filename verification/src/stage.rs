//! What a stage is: the inputs it is given, the outputs it answers with,
//! and the operations a pipeline calls on it.

use crate::checkpoint::{BlockNumber, StageCheckpoint, StageId};
use vstd::prelude::*;

verus! {

/// A stage could not do its work. The pass that called it ends.
#[derive(Debug, Clone, Copy, PartialEq, Eq, Structural)]
pub struct StageError {
    /// What the stage reports about the failure.
    pub code: u64,
}

/// The answer of a readiness poll.
#[derive(Debug, Clone, Copy, PartialEq, Eq, Structural)]
pub enum Readiness {
    /// The stage can execute now.
    Ready,
    /// The stage waits for something outside it; poll again later.
    Pending,
}

/// A stage stayed `Pending` through every poll it was allowed.
#[derive(Debug, Clone, Copy, PartialEq, Eq, Structural)]
pub struct ReadinessTimeout {
    /// How many more polls had been allowed after the first.
    pub retries: u64,
}

/// Stage execution input, see [`Stage::execute`].
#[derive(Debug, PartialEq, Eq, Clone, Copy, Structural)]
pub struct ExecInput {
    /// The target block number the stage needs to execute towards.
    pub target: Option<BlockNumber>,
    /// The checkpoint of this stage the last time it was executed. Without
    /// one the stage starts from its beginning.
    pub checkpoint: Option<StageCheckpoint>,
}

impl Default for ExecInput {
    fn default() -> (input: Self)
        ensures
            input == (ExecInput { target: None, checkpoint: None }),
    {
        ExecInput { target: None, checkpoint: None }
    }
}

/// Stage unwind input, see [`Stage::unwind`].
#[derive(Debug, PartialEq, Eq, Clone, Copy, Structural)]
pub struct UnwindInput {
    /// The current highest checkpoint of the stage.
    pub checkpoint: StageCheckpoint,
    /// The block to unwind to.
    pub unwind_to: BlockNumber,
    /// The bad block that caused the unwind, if any.
    pub bad_block: Option<BlockNumber>,
}

impl UnwindInput {
    /// An unwind never goes forward: its goal is at or below the checkpoint.
    pub open spec fn is_valid(self) -> bool {
        self.unwind_to <= self.checkpoint.block_number
    }
}

impl Default for UnwindInput {
    fn default() -> (input: Self)
        ensures
            input == (UnwindInput {
                checkpoint: StageCheckpoint { block_number: 0, stage_checkpoint: None },
                unwind_to: 0,
                bad_block: None,
            }),
    {
        UnwindInput {
            checkpoint: StageCheckpoint { block_number: 0, stage_checkpoint: None },
            unwind_to: 0,
            bad_block: None,
        }
    }
}

/// The output of a stage execution.
#[derive(Debug, PartialEq, Eq, Clone, Structural)]
pub struct ExecOutput {
    /// How far the stage got.
    pub checkpoint: StageCheckpoint,
    /// Whether or not the stage is done.
    pub done: bool,
}

impl ExecOutput {
    /// What an output owes the input it answers: where a target is set, the
    /// stage has not gone past it, and it is done exactly when it stands at it.
    pub open spec fn answers(self, input: ExecInput) -> bool {
        input.target matches Some(target) ==> {
            &&& self.checkpoint.block_number <= target
            &&& (self.done <==> self.checkpoint.block_number == target)
        }
    }
}

/// The output of a stage unwinding.
#[derive(Debug, PartialEq, Eq, Clone, Structural)]
pub struct UnwindOutput {
    /// The checkpoint at which the stage has unwound to.
    pub checkpoint: StageCheckpoint,
}

impl UnwindOutput {
    /// What an output owes the input it answers: the stage stands exactly
    /// where it was told to unwind to.
    pub open spec fn answers(self, input: UnwindInput) -> bool {
        self.checkpoint.block_number == input.unwind_to
    }
}

/// Unwinding a stage and executing it again, to the end, brings it back to
/// where it stood: the unwind leaves it exactly at `unwind_to`, and an
/// execution from there toward the old position that is done stands at the
/// old position.
pub proof fn lemma_unwind_then_execute_restores_position(
    checkpoint: StageCheckpoint,
    unwind_to: BlockNumber,
    bad_block: Option<BlockNumber>,
    unwound: UnwindOutput,
    executed: ExecOutput,
)
    requires
        unwind_to < checkpoint.block_number,
        unwound.answers(UnwindInput { checkpoint, unwind_to, bad_block }),
        executed.answers(
            ExecInput { target: Some(checkpoint.block_number), checkpoint: Some(unwound.checkpoint) },
        ),
        executed.done,
    ensures
        unwound.checkpoint.block_number == unwind_to,
        executed.checkpoint.block_number == checkpoint.block_number,
{
}

/// An execution that stops before the target and is taken up again from its
/// checkpoint ends, once it is done, at the position at which an execution
/// that was never interrupted ends: the target.
pub proof fn lemma_resumed_execution_reaches_same_position(
    target: BlockNumber,
    checkpoint: Option<StageCheckpoint>,
    partial: ExecOutput,
    resumed: ExecOutput,
    direct: ExecOutput,
)
    requires
        partial.answers(ExecInput { target: Some(target), checkpoint }),
        !partial.done,
        resumed.answers(ExecInput { target: Some(target), checkpoint: Some(partial.checkpoint) }),
        resumed.done,
        direct.answers(ExecInput { target: Some(target), checkpoint }),
        direct.done,
    ensures
        partial.checkpoint.block_number < target,
        resumed.checkpoint.block_number == direct.checkpoint.block_number,
        resumed.checkpoint.block_number == target,
{
}

/// What to do after one readiness poll.
#[derive(Debug, Clone, Copy, PartialEq, Eq, Structural)]
pub enum PollVerdict {
    /// The stage is ready.
    Ready,
    /// Poll again; so many polls are allowed after that one.
    Retry { retries: u64 },
    /// The stage is not ready and no poll is left.
    TimedOut,
}

/// The verdict on a poll that answered `readiness` when `retries` more polls
/// were allowed.
pub open spec fn verdict_of(readiness: Readiness, retries: u64) -> PollVerdict {
    match readiness {
        Readiness::Ready => PollVerdict::Ready,
        Readiness::Pending => if retries == 0 {
            PollVerdict::TimedOut
        } else {
            PollVerdict::Retry { retries: (retries - 1) as u64 }
        },
    }
}

/// Decides what follows a readiness poll: a ready stage goes on, a pending
/// one is polled again as long as a retry is left.
pub fn poll_verdict(readiness: Readiness, retries: u64) -> (verdict: PollVerdict)
    ensures
        verdict == verdict_of(readiness, retries),
{
    match readiness {
        Readiness::Ready => PollVerdict::Ready,
        Readiness::Pending => if retries == 0 {
            PollVerdict::TimedOut
        } else {
            PollVerdict::Retry { retries: retries - 1 }
        },
    }
}

/// A unit of work of a pipeline, which can roll forwards ([`Stage::execute`])
/// and roll back ([`Stage::unwind`]) against a data provider.
///
/// A pipeline never calls into one stage from two places at once, and a call
/// runs to its end. What a stage owes beyond the clauses below: an execution
/// that is handed the checkpoint of an earlier, partial one continues it and
/// repeats none of its work.
pub trait Stage<Provider>: Send + Sync {
    /// The unique id of the stage. It never changes.
    fn id(&self) -> StageId;

    /// Says whether the stage can execute the given input now. It returns at
    /// once, and a stage that answers `Pending` has set no work in motion.
    /// Unless a stage says otherwise it is ready, and the poll leaves it as
    /// it is.
    fn poll_execute_ready(&mut self, input: ExecInput) -> (readiness: Readiness)
        default_ensures
            readiness == Readiness::Ready,
            &*final(self) == &*old(self),
    {
        Readiness::Ready
    }

    /// Executes the stage: advances from the checkpoint of `input` toward
    /// its target, or, without a target, as far as the stage sees fit.
    fn execute(&mut self, provider: &Provider, input: ExecInput) -> (result: Result<
        ExecOutput,
        StageError,
    >)
        ensures
            result matches Ok(output) ==> output.answers(input),
    ;

    /// Called after the checkpoint of an execution has been made durable. A
    /// failure is reported, and the checkpoint stays. Unless a stage says
    /// otherwise the hook does nothing.
    fn post_execute_commit(&mut self) -> (result: Result<(), StageError>)
        default_ensures
            result is Ok,
            &*final(self) == &*old(self),
    {
        Ok(())
    }

    /// Unwinds the stage: undoes its effects above `input.unwind_to`. Where
    /// there is nothing to undo, only the checkpoint moves.
    fn unwind(&mut self, provider: &Provider, input: UnwindInput) -> (result: Result<
        UnwindOutput,
        StageError,
    >)
        requires
            input.is_valid(),
        ensures
            result matches Ok(output) ==> output.answers(input),
    ;

    /// Called after the checkpoint of an unwind has been made durable. A
    /// failure is reported, and the checkpoint stays. Unless a stage says
    /// otherwise the hook does nothing.
    fn post_unwind_commit(&mut self) -> (result: Result<(), StageError>)
        default_ensures
            result is Ok,
            &*final(self) == &*old(self),
    {
        Ok(())
    }
}

/// A boxed stage is a stage: a pipeline may hold stages of different kinds
/// as `Box<dyn Stage<Provider>>`.
///
/// Every operation is that of the stage in the box. Its answer is one that
/// the operation of that stage can give when it is called on the stage as
/// the box holds it, with the arguments as they were given; and the box
/// holds afterwards what that call has made of the stage.
impl<Provider, T: Stage<Provider> + ?Sized> Stage<Provider> for Box<T> {
    fn id(&self) -> (id: StageId)
        ensures
            call_ensures(T::id, (&**self,), id),
    {
        (**self).id()
    }

    fn poll_execute_ready(&mut self, input: ExecInput) -> (readiness: Readiness)
        ensures
            exists|inner: &mut T|
                &*inner == &**old(self) && &*final(inner) == &**final(self)
                    && #[trigger] call_ensures(T::poll_execute_ready, (inner, input), readiness),
    {
        let inner: &mut T = &mut **self;
        inner.poll_execute_ready(input)
    }

    fn execute(&mut self, provider: &Provider, input: ExecInput) -> (result: Result<
        ExecOutput,
        StageError,
    >)
        ensures
            exists|inner: &mut T|
                &*inner == &**old(self) && &*final(inner) == &**final(self)
                    && #[trigger] call_ensures(T::execute, (inner, provider, input), result),
    {
        let inner: &mut T = &mut **self;
        inner.execute(provider, input)
    }

    fn post_execute_commit(&mut self) -> (result: Result<(), StageError>)
        ensures
            exists|inner: &mut T|
                &*inner == &**old(self) && &*final(inner) == &**final(self)
                    && #[trigger] call_ensures(T::post_execute_commit, (inner,), result),
    {
        let inner: &mut T = &mut **self;
        inner.post_execute_commit()
    }

    fn unwind(&mut self, provider: &Provider, input: UnwindInput) -> (result: Result<
        UnwindOutput,
        StageError,
    >)
        ensures
            exists|inner: &mut T|
                &*inner == &**old(self) && &*final(inner) == &**final(self)
                    && #[trigger] call_ensures(T::unwind, (inner, provider, input), result),
    {
        let inner: &mut T = &mut **self;
        inner.unwind(provider, input)
    }

    fn post_unwind_commit(&mut self) -> (result: Result<(), StageError>)
        ensures
            exists|inner: &mut T|
                &*inner == &**old(self) && &*final(inner) == &**final(self)
                    && #[trigger] call_ensures(T::post_unwind_commit, (inner,), result),
    {
        let inner: &mut T = &mut **self;
        inner.post_unwind_commit()
    }
}

/// [Stage] trait extension.
pub trait StageExt<Provider>: Stage<Provider> {
    /// Polls the stage until it is ready to execute `input`: once, and up to
    /// `retries` more times while it answers `Pending`.
    ///
    /// The polls are calls of [`Stage::poll_execute_ready`] with `input`,
    /// each on the stage as the poll before it left it, the first on the
    /// stage as it was given; the stage is left as the last poll left it.
    /// `answers` are their answers and `states` the states of the stage
    /// between them. Every poll but the last answered `Pending`. The result
    /// is `Ok` if the last answered `Ready`. It is the timeout if the last
    /// answered `Pending` too, and then every poll that was allowed has been
    /// made.
    fn execute_ready(&mut self, input: ExecInput, retries: u64) -> (result: Result<
        (),
        ReadinessTimeout,
    >)
        ensures
            result matches Err(timeout) ==> timeout.retries == retries,
            exists|states: Seq<&Self>, answers: Seq<Readiness>|
                #![trigger states.len(), answers.len()]
                {
                    &&& 1 <= answers.len() <= retries + 1
                    &&& states.len() == answers.len() + 1
                    &&& states[0] == &*old(self)
                    &&& states.last() == &*final(self)
                    &&& forall|i: int|
                        #![trigger answers[i]]
                        0 <= i < answers.len() ==> {
                            &&& i < answers.len() - 1 ==> answers[i] == Readiness::Pending
                            &&& exists|poll: &mut Self|
                                &*poll == states[i] && &*final(poll) == states[i + 1]
                                    && #[trigger] call_ensures(
                                    Self::poll_execute_ready,
                                    (poll, input),
                                    answers[i],
                                )
                        }
                    &&& match result {
                        Ok(_) => answers.last() == Readiness::Ready,
                        Err(_) => answers.last() == Readiness::Pending && answers.len() == retries
                            + 1,
                    }
                },
    {
        let mut left: u64 = retries;
        let ghost mut states: Seq<&Self> = seq![&*self];
        let ghost mut answers: Seq<Readiness> = Seq::empty();
        loop
            invariant
                left <= retries,
                answers.len() == retries - left,
                states.len() == answers.len() + 1,
                states[0] == &*old(self),
                states.last() == &*self,
                forall|i: int|
                    #![trigger answers[i]]
                    0 <= i < answers.len() ==> {
                        &&& answers[i] == Readiness::Pending
                        &&& exists|poll: &mut Self|
                            &*poll == states[i] && &*final(poll) == states[i + 1]
                                && #[trigger] call_ensures(
                                Self::poll_execute_ready,
                                (poll, input),
                                answers[i],
                            )
                    },
            decreases left,
        {
            let ghost before: &Self = &*self;
            let readiness = self.poll_execute_ready(input);
            assert(exists|poll: &mut Self|
                &*poll == before && &*final(poll) == &*self && #[trigger] call_ensures(
                    Self::poll_execute_ready,
                    (poll, input),
                    readiness,
                ));
            proof {
                states = states.push(&*self);
                answers = answers.push(readiness);
            }
            match poll_verdict(readiness, left) {
                PollVerdict::Ready => {
                    assert(states.last() == &*self && answers.last() == Readiness::Ready);
                    return Ok(());
                },
                PollVerdict::TimedOut => {
                    assert(states.last() == &*self && answers.last() == Readiness::Pending);
                    return Err(ReadinessTimeout { retries });
                },
                PollVerdict::Retry { retries: fewer } => {
                    left = fewer;
                },
            }
        }
    }
}

impl<Provider, S: Stage<Provider>> StageExt<Provider> for S {

}

} // verus!

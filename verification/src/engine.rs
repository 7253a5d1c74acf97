//! Submission and the bounded wait for its completion.

use vstd::prelude::*;
use crate::error::Error;

verus! {

/// The bound on one fence wait, in nanoseconds: 250 ms.
pub const WAIT_TIMEOUT_NS: u64 = 250_000_000;

/// The state of the completion fence.
#[derive(Debug, Clone, Copy, PartialEq, Eq, Structural)]
pub enum FenceState {
    Unsignaled,
    Signaled,
}

/// Where a submission stands.
#[derive(Debug, Clone, Copy, PartialEq, Eq, Structural)]
pub enum EngineState {
    /// Nothing was submitted.
    Idle,
    /// The commands were submitted and the fence has not been seen signaled.
    InFlight,
    /// The fence was seen signaled: the output is valid.
    Completed,
    /// The last wait ran out before the fence was signaled. The submission
    /// is still outstanding.
    TimedOut,
}

/// How one bounded wait on the fence ended.
#[derive(Debug, Clone, Copy, PartialEq, Eq, Structural)]
pub enum WaitOutcome {
    /// The device signaled the fence within the bound.
    Signaled,
    /// The bound elapsed first.
    Expired,
}

/// The result code with which a fence wait reports that the fence was
/// signaled.
pub const WAIT_SUCCESS: i32 = 0;

/// The result code with which a fence wait reports that the bound elapsed.
pub const WAIT_TIMEOUT: i32 = 2;

/// Reads the result code of one bounded fence wait. Success means the fence
/// was signaled, the timeout code that the bound elapsed; any other code is
/// a driver error with that code.
pub fn classify_wait(code: i32) -> (r: Result<WaitOutcome, Error>)
    ensures
        code == WAIT_SUCCESS ==> r == Ok::<WaitOutcome, Error>(WaitOutcome::Signaled),
        code == WAIT_TIMEOUT ==> r == Ok::<WaitOutcome, Error>(WaitOutcome::Expired),
        code != WAIT_SUCCESS && code != WAIT_TIMEOUT ==> r == Err::<WaitOutcome, Error>(
            Error::Driver(code),
        ),
{
    if code == WAIT_SUCCESS {
        Ok(WaitOutcome::Signaled)
    } else if code == WAIT_TIMEOUT {
        Ok(WaitOutcome::Expired)
    } else {
        Err(Error::Driver(code))
    }
}

/// What the driver is asked to do for a submission, in this order.
#[derive(Debug, Clone, Copy, PartialEq, Eq, Structural)]
pub enum SubmitAction {
    /// Reset the fence to unsignaled.
    ResetFence,
    /// Enqueue the command buffer, tagged with the fence.
    QueueSubmit,
}

/// One move of the engine.
#[derive(Debug, Clone, Copy, PartialEq, Eq, Structural)]
pub enum EngineStep {
    Submit,
    Wait(WaitOutcome),
}

/// Whether a submission is outstanding in this state.
pub open spec fn is_outstanding(state: EngineState) -> bool {
    state is InFlight || state is TimedOut
}

/// Whether the move is allowed in this state: a submission only when
/// nothing was submitted, a wait only while a submission is outstanding.
pub open spec fn allows(state: EngineState, step: EngineStep) -> bool {
    match step {
        EngineStep::Submit => state is Idle,
        EngineStep::Wait(_) => is_outstanding(state),
    }
}

/// The state after an allowed move.
pub open spec fn next_state(state: EngineState, step: EngineStep) -> EngineState {
    match step {
        EngineStep::Submit => EngineState::InFlight,
        EngineStep::Wait(WaitOutcome::Signaled) => EngineState::Completed,
        EngineStep::Wait(WaitOutcome::Expired) => EngineState::TimedOut,
    }
}

/// Whether every move of `steps` is allowed when they are made one after
/// another starting in `state`.
pub open spec fn is_run(state: EngineState, steps: Seq<EngineStep>) -> bool
    decreases steps.len(),
{
    if steps.len() == 0 {
        true
    } else {
        allows(state, steps[0]) && is_run(next_state(state, steps[0]), steps.drop_first())
    }
}

/// The state after the moves of `steps`, made one after another starting in
/// `state`.
pub open spec fn state_after(state: EngineState, steps: Seq<EngineStep>) -> EngineState
    decreases steps.len(),
{
    if steps.len() == 0 {
        state
    } else {
        state_after(next_state(state, steps[0]), steps.drop_first())
    }
}

/// The fence as the engine last knew it, and where the submission stands.
#[derive(Debug)]
pub struct ExecutionEngine {
    state: EngineState,
    fence: FenceState,
}

impl ExecutionEngine {
    /// Where the submission stands.
    pub closed spec fn state(&self) -> EngineState {
        self.state
    }

    /// The fence as the engine last knew it.
    pub closed spec fn fence(&self) -> FenceState {
        self.fence
    }

    /// An engine on a fresh, unsignaled fence, with nothing submitted.
    pub fn new() -> (r: ExecutionEngine)
        ensures
            r.state() == EngineState::Idle,
            r.fence() == FenceState::Unsignaled,
    {
        ExecutionEngine { state: EngineState::Idle, fence: FenceState::Unsignaled }
    }

    /// Where the submission stands.
    pub fn current_state(&self) -> (r: EngineState)
        ensures
            r == self.state(),
    {
        self.state
    }

    /// The fence as the engine last knew it.
    pub fn fence_state(&self) -> (r: FenceState)
        ensures
            r == self.fence(),
    {
        self.fence
    }

    /// Tells whether a submission may be made now.
    pub fn can_submit(&self) -> (r: bool)
        ensures
            r == allows(self.state(), EngineStep::Submit),
    {
        self.state == EngineState::Idle
    }

    /// Tells whether a wait may be made now.
    pub fn can_wait(&self) -> (r: bool)
        ensures
            r == is_outstanding(self.state()),
    {
        self.state == EngineState::InFlight || self.state == EngineState::TimedOut
    }

    /// Tells whether the output may be read back: only once the fence was
    /// seen signaled.
    pub fn can_read_back(&self) -> (r: bool)
        ensures
            r == (self.state() is Completed),
    {
        self.state == EngineState::Completed
    }

    /// The bound to pass to the driver for one wait.
    pub fn wait_timeout(&self) -> (r: u64)
        ensures
            r == WAIT_TIMEOUT_NS,
            r < u64::MAX,
    {
        WAIT_TIMEOUT_NS
    }

    /// Submits: the fence is reset to unsignaled, then the command buffer is
    /// enqueued tagged with it. Returns these two driver calls in their
    /// order.
    pub fn submit(&mut self) -> (r: Vec<SubmitAction>)
        requires
            allows(old(self).state(), EngineStep::Submit),
        ensures
            final(self).state() == next_state(old(self).state(), EngineStep::Submit),
            final(self).fence() == FenceState::Unsignaled,
            r@ == seq![SubmitAction::ResetFence, SubmitAction::QueueSubmit],
    {
        self.state = EngineState::InFlight;
        self.fence = FenceState::Unsignaled;
        let mut actions: Vec<SubmitAction> = Vec::with_capacity(2);
        actions.push(SubmitAction::ResetFence);
        actions.push(SubmitAction::QueueSubmit);
        assert(actions@ =~= seq![SubmitAction::ResetFence, SubmitAction::QueueSubmit]);
        actions
    }

    /// Takes in how one bounded wait ended. A signaled fence completes the
    /// submission. An expired wait is a timeout error: the submission stays
    /// outstanding, and nothing is retried.
    pub fn wait(&mut self, outcome: WaitOutcome) -> (r: Result<(), Error>)
        requires
            allows(old(self).state(), EngineStep::Wait(outcome)),
        ensures
            final(self).state() == next_state(old(self).state(), EngineStep::Wait(outcome)),
            match outcome {
                WaitOutcome::Signaled => r is Ok && final(self).fence() == FenceState::Signaled,
                WaitOutcome::Expired => r == Err::<(), Error>(Error::Timeout) && final(self).fence()
                    == old(self).fence(),
            },
    {
        match outcome {
            WaitOutcome::Signaled => {
                self.state = EngineState::Completed;
                self.fence = FenceState::Signaled;
                Ok(())
            },
            WaitOutcome::Expired => {
                self.state = EngineState::TimedOut;
                Err(Error::Timeout)
            },
        }
    }
}

/// A device that never signals never completes the submission: after any
/// run of moves in which no wait saw the fence signaled, the state is not
/// `Completed`, and after a wait it is `TimedOut`.
pub proof fn lemma_never_signaled_never_completes(steps: Seq<EngineStep>)
    requires
        is_run(EngineState::Idle, steps),
        forall|i: int| 0 <= i < steps.len() ==> steps[i] != EngineStep::Wait(WaitOutcome::Signaled),
    ensures
        !(state_after(EngineState::Idle, steps) is Completed),
        steps.len() >= 2 ==> state_after(EngineState::Idle, steps) is TimedOut,
{
    lemma_unsignaled_run(EngineState::Idle, steps);
}

/// The output is valid only after the fence was seen signaled: a run of
/// moves that ends in `Completed` contains a wait that saw it signaled, and
/// a submission before it.
pub proof fn lemma_completed_after_signal(steps: Seq<EngineStep>)
    requires
        is_run(EngineState::Idle, steps),
        state_after(EngineState::Idle, steps) is Completed,
    ensures
        exists|i: int, j: int|
            0 <= i < j < steps.len() && steps[i] == EngineStep::Submit && steps[j]
                == EngineStep::Wait(WaitOutcome::Signaled),
{
    if forall|i: int| 0 <= i < steps.len() ==> steps[i] != EngineStep::Wait(WaitOutcome::Signaled) {
        lemma_unsignaled_run(EngineState::Idle, steps);
    } else {
        let j = choose|j: int|
            0 <= j < steps.len() && steps[j] == EngineStep::Wait(WaitOutcome::Signaled);
        lemma_first_step_is_submit(steps);
        assert(steps[0] == EngineStep::Submit);
        assert(0 < j);
    }
}

/// A run that starts with nothing submitted and makes a move starts with a
/// submission.
proof fn lemma_first_step_is_submit(steps: Seq<EngineStep>)
    requires
        is_run(EngineState::Idle, steps),
        steps.len() > 0,
    ensures
        steps[0] == EngineStep::Submit,
{
}

/// Without a signaled wait, a run stays among the states it can reach by
/// submitting and timing out.
proof fn lemma_unsignaled_run(state: EngineState, steps: Seq<EngineStep>)
    requires
        is_run(state, steps),
        !(state is Completed),
        forall|i: int| 0 <= i < steps.len() ==> steps[i] != EngineStep::Wait(WaitOutcome::Signaled),
    ensures
        !(state_after(state, steps) is Completed),
        state is Idle && steps.len() >= 2 ==> state_after(state, steps) is TimedOut,
        is_outstanding(state) && steps.len() >= 1 ==> state_after(state, steps) is TimedOut,
    decreases steps.len(),
{
    if steps.len() > 0 {
        let rest = steps.drop_first();
        assert(steps[0] != EngineStep::Wait(WaitOutcome::Signaled));
        assert forall|i: int| 0 <= i < rest.len() implies rest[i] != EngineStep::Wait(
            WaitOutcome::Signaled,
        ) by {
            assert(rest[i] == steps[i + 1]);
        }
        lemma_unsignaled_run(next_state(state, steps[0]), rest);
    }
}

} // verus!

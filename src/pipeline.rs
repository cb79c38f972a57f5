//! The decisions of the leaf ingestion pipeline.  The pipeline takes leaves
//! one at a time; for each it records the leaf in the shared state, then
//! sends the block summary and then the voter bitmap to their subscribers.
//! The end of the leaf stream, or a failed send, terminates it for good.
//! Whoever drives the pipeline performs each action that `next_step` returns
//! and reports what came of it as the next event.

use vstd::prelude::*;
use futures::channel::mpsc::SendError;

verus! {

#[verifier::external_type_specification]
#[verifier::external_body]
pub struct ExSendError(SendError);

/// Why a pipeline stopped.
#[derive(PartialEq, Eq, Structural, Clone, Copy, Debug)]
pub enum Termination {
    EndOfStream,
    SendFailed,
}

/// Where a pipeline stands.
#[derive(PartialEq, Eq, Structural, Clone, Copy, Debug)]
pub enum PipelineState {
    /// Waiting for the next leaf.
    AwaitingLeaf,
    /// The leaf is recorded; its block summary is being sent.
    SendingBlock,
    /// The block summary is sent; the voter bitmap is being sent.
    SendingVoters,
    /// Stopped; nothing more is done.
    Terminated(Termination),
}

/// What happened since the last step.
#[derive(PartialEq, Eq, Structural, Clone, Copy, Debug)]
pub enum PipelineEvent {
    /// A leaf arrived on the inbound stream.
    LeafArrived,
    /// The inbound stream ended.
    StreamEnded,
    /// The send under way completed.
    Sent,
    /// The send under way failed: its receiver is gone.
    SendFailed,
}

/// What to do next.
#[derive(PartialEq, Eq, Structural, Clone, Copy, Debug)]
pub enum PipelineAction {
    /// Record the leaf in the shared state under exclusive access, release
    /// that access, then send the block summary.
    RecordAndSendBlock,
    /// Send the voter bitmap.
    SendVoters,
    /// Wait for the next leaf.
    AwaitLeaf,
    /// Stop.
    Stop,
    /// The event does not belong to this state; nothing changes.
    Ignore,
}

/// One step of the pipeline.
pub open spec fn step(state: PipelineState, event: PipelineEvent) -> (PipelineState, PipelineAction) {
    match (state, event) {
        (PipelineState::Terminated(t), _) => (PipelineState::Terminated(t), PipelineAction::Stop),
        (PipelineState::AwaitingLeaf, PipelineEvent::LeafArrived) =>
            (PipelineState::SendingBlock, PipelineAction::RecordAndSendBlock),
        (PipelineState::AwaitingLeaf, PipelineEvent::StreamEnded) =>
            (PipelineState::Terminated(Termination::EndOfStream), PipelineAction::Stop),
        (PipelineState::SendingBlock, PipelineEvent::Sent) =>
            (PipelineState::SendingVoters, PipelineAction::SendVoters),
        (PipelineState::SendingVoters, PipelineEvent::Sent) =>
            (PipelineState::AwaitingLeaf, PipelineAction::AwaitLeaf),
        (PipelineState::SendingBlock, PipelineEvent::SendFailed) =>
            (PipelineState::Terminated(Termination::SendFailed), PipelineAction::Stop),
        (PipelineState::SendingVoters, PipelineEvent::SendFailed) =>
            (PipelineState::Terminated(Termination::SendFailed), PipelineAction::Stop),
        _ => (state, PipelineAction::Ignore),
    }
}

/// The state after a sequence of events.
pub open spec fn state_after(state: PipelineState, events: Seq<PipelineEvent>) -> PipelineState
    decreases events.len(),
{
    if events.len() == 0 {
        state
    } else {
        step(state_after(state, events.drop_last()), events.last()).0
    }
}

/// The actions taken over a sequence of events.
pub open spec fn actions_after(state: PipelineState, events: Seq<PipelineEvent>) -> Seq<PipelineAction>
    decreases events.len(),
{
    if events.len() == 0 {
        Seq::empty()
    } else {
        actions_after(state, events.drop_last()).push(
            step(state_after(state, events.drop_last()), events.last()).1,
        )
    }
}

/// The state a fresh pipeline starts in.
pub fn start() -> (r: PipelineState)
    ensures
        r == PipelineState::AwaitingLeaf,
{
    PipelineState::AwaitingLeaf
}

/// Decides the next state and action from the current state and an event.
pub fn next_step(state: PipelineState, event: PipelineEvent) -> (r: (PipelineState, PipelineAction))
    ensures
        r == step(state, event),
{
    match (state, event) {
        (PipelineState::Terminated(t), _) => (PipelineState::Terminated(t), PipelineAction::Stop),
        (PipelineState::AwaitingLeaf, PipelineEvent::LeafArrived) =>
            (PipelineState::SendingBlock, PipelineAction::RecordAndSendBlock),
        (PipelineState::AwaitingLeaf, PipelineEvent::StreamEnded) =>
            (PipelineState::Terminated(Termination::EndOfStream), PipelineAction::Stop),
        (PipelineState::SendingBlock, PipelineEvent::Sent) =>
            (PipelineState::SendingVoters, PipelineAction::SendVoters),
        (PipelineState::SendingVoters, PipelineEvent::Sent) =>
            (PipelineState::AwaitingLeaf, PipelineAction::AwaitLeaf),
        (PipelineState::SendingBlock, PipelineEvent::SendFailed) =>
            (PipelineState::Terminated(Termination::SendFailed), PipelineAction::Stop),
        (PipelineState::SendingVoters, PipelineEvent::SendFailed) =>
            (PipelineState::Terminated(Termination::SendFailed), PipelineAction::Stop),
        _ => (state, PipelineAction::Ignore),
    }
}

/// Whether the pipeline has stopped.
pub fn is_terminated(state: PipelineState) -> (r: bool)
    ensures
        r == (state is Terminated),
{
    match state {
        PipelineState::Terminated(_) => true,
        _ => false,
    }
}

/// Once terminated, a pipeline stays terminated, for the same reason,
/// whatever happens next, and its only action is to stop: there is no
/// restart and no further output.
pub proof fn lemma_termination_is_final(t: Termination, events: Seq<PipelineEvent>)
    ensures
        state_after(PipelineState::Terminated(t), events) == PipelineState::Terminated(t),
        forall|i: int|
            0 <= i < events.len() ==> #[trigger] actions_after(PipelineState::Terminated(t), events)[i]
                == PipelineAction::Stop,
        actions_after(PipelineState::Terminated(t), events).len() == events.len(),
    decreases events.len(),
{
    if events.len() > 0 {
        lemma_termination_is_final(t, events.drop_last());
        let prev = actions_after(PipelineState::Terminated(t), events.drop_last());
        assert forall|i: int|
            0 <= i < events.len() implies #[trigger] actions_after(PipelineState::Terminated(t), events)[i]
                == PipelineAction::Stop by {
            if i < events.len() - 1 {
                assert(prev[i] == PipelineAction::Stop);
            }
        }
    }
}

/// The error that ends the processing of a leaf.
#[derive(Debug)]
pub enum ProcessLeafError {
    SendError(SendError),
}

/// Relies on `SendError`'s `Display` to render the error's cause.
#[verifier::external_body]
fn describe_send_error(err: &SendError) -> String {
    format!("error sending block detail to sender: {}", err)
}

impl ProcessLeafError {
    /// A description of the error for people.
    pub fn to_string(&self) -> String {
        match self {
            ProcessLeafError::SendError(err) => describe_send_error(err),
        }
    }
}

/// The outcome of a send as this library's error.
pub fn send_result(r: Result<(), SendError>) -> (out: Result<(), ProcessLeafError>)
    ensures
        out is Ok <==> r is Ok,
{
    match r {
        Ok(()) => Ok(()),
        Err(err) => Err(ProcessLeafError::SendError(err)),
    }
}

/// The event that reports the outcome of a send.
pub fn send_event(r: &Result<(), ProcessLeafError>) -> (e: PipelineEvent)
    ensures
        e == (if r is Ok { PipelineEvent::Sent } else { PipelineEvent::SendFailed }),
{
    match r {
        Ok(()) => PipelineEvent::Sent,
        Err(_) => PipelineEvent::SendFailed,
    }
}

} // verus!
